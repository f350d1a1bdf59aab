//! Playback core of a personal audiobook library: progress throttling,
//! chapter navigation, a sleep timer and the session controller that
//! drives them, with the small formatting and error helpers around them.

pub mod access;
pub mod catalog;
pub mod errors;
pub mod import;
pub mod navigator;
pub mod progress;
pub mod session;
pub mod sleep;
pub mod time_format;

pub use access::{is_admin_user, may_change_password, may_write_progress, User};
pub use catalog::{recent_first, AuthorDetail};
pub use errors::AudioAppError;
pub use import::{chapter_file_name, music_type_of, parse_decimal_u32, plan_chapters, sort_with_number, ChapterRow};
pub use navigator::{BookChapters, ChapterRef};
pub use progress::{Decision, ProgressTracker, Snapshot};
pub use session::{AudioProps, Command, Phase, Session, SetProgress, Status};
pub use sleep::{SleepCheck, SleepTimer};
pub use time_format::{formate_time, translate_time};
