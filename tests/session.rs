use audiobookroom::{AudioProps, BookChapters, Command, Phase, Session, SetProgress, Snapshot, Status};

const ACCOUNT: i32 = 42;

fn props(chapter_id: i32, init_time: u64) -> AudioProps {
    AudioProps { chapter_id, book_id: 1, init_time }
}

fn three_chapters() -> BookChapters {
    BookChapters::new(1, vec![0, 1, 2])
}

/// A session playing chapter `chapter_id` of the three-chapter book.
fn playing(chapter_id: i32, init_time: u64) -> (Session, AudioProps) {
    let mut s = Session::new(ACCOUNT);
    let p = props(chapter_id, init_time);
    assert_eq!(s.load(p), vec![Command::FetchMetadata { book_id: 1, chapter_id }]);
    assert_eq!(s.phase(), Phase::Loading);
    assert_eq!(s.on_metadata_loaded(p, three_chapters()), vec![Command::Play(p)]);
    assert_eq!(s.phase(), Phase::Playing);
    (s, p)
}

fn save(chapter_id: i32, progress: u64) -> Command {
    Command::SaveProgress(SetProgress { account_id: ACCOUNT, music_id: 1, chapter_id, progress })
}

#[test]
fn ended_loads_next_chapter_from_start() {
    let (mut s, p) = playing(1, 5_000);
    assert_eq!(s.offset(), 5_000);
    let cmds = s.on_ended(p);
    assert_eq!(s.phase(), Phase::Loading);
    assert_eq!(s.props(), Some(props(2, 0)));
    assert_eq!(cmds, vec![Command::FetchMetadata { book_id: 1, chapter_id: 2 }, save(2, 0)]);
}

#[test]
fn ended_at_last_chapter_ends_the_book() {
    let (mut s, p) = playing(2, 0);
    let cmds = s.on_ended(p);
    assert!(cmds.is_empty());
    assert_eq!(s.phase(), Phase::Idle);
    assert_eq!(s.status(), Status::EndOfBook);
    assert_eq!(s.props(), None);
}

#[test]
fn skip_next_moves_like_ended() {
    let (mut s, p) = playing(0, 0);
    let cmds = s.on_skip_next(p);
    assert_eq!(s.props(), Some(props(1, 0)));
    assert_eq!(cmds, vec![Command::FetchMetadata { book_id: 1, chapter_id: 1 }, save(1, 0)]);
}

#[test]
fn skip_previous_loads_previous_chapter() {
    let (mut s, p) = playing(2, 30_000);
    let cmds = s.on_skip_previous(p);
    assert_eq!(s.phase(), Phase::Loading);
    assert_eq!(s.props(), Some(props(1, 0)));
    assert_eq!(cmds, vec![Command::FetchMetadata { book_id: 1, chapter_id: 1 }, save(1, 0)]);
}

#[test]
fn skip_previous_at_first_chapter_does_nothing() {
    let (mut s, p) = playing(0, 0);
    assert!(s.on_skip_previous(p).is_empty());
    assert_eq!(s.phase(), Phase::Playing);
    assert_eq!(s.props(), Some(p));
    assert_eq!(s.status(), Status::Clear);
}

#[test]
fn time_updates_are_throttled() {
    let (mut s, p) = playing(1, 0);
    assert_eq!(s.on_time_update(p, 12_000, 0), vec![save(1, 12_000)]);
    assert!(s.on_time_update(p, 12_500, 0).is_empty());
    assert_eq!(s.offset(), 12_500);
    assert_eq!(s.on_time_update(p, 23_000, 0), vec![save(1, 23_000)]);
    assert_eq!(s.last_saved(), Some(Snapshot { chapter_id: 1, offset: 23_000 }));
}

#[test]
fn stale_time_update_is_ignored() {
    let (mut s, p) = playing(0, 0);
    s.on_time_update(p, 1_000, 0);
    s.on_ended(p);
    let next = props(1, 0);
    s.on_metadata_loaded(next, three_chapters());
    assert!(s.on_time_update(p, 50_000, 0).is_empty());
    assert_eq!(s.last_saved(), Some(Snapshot { chapter_id: 1, offset: 0 }));
    assert_eq!(s.on_time_update(next, 12_000, 0), vec![save(1, 12_000)]);
}

#[test]
fn sleep_expiry_pauses_on_tick() {
    let (mut s, p) = playing(0, 0);
    s.arm_sleep(1_000, 600);
    assert_eq!(s.sleep_deadline(), Some(1_600));
    assert_eq!(s.on_time_update(p, 8_000, 1_599), vec![save(0, 8_000)]);
    // 9 s is not on a tick, so the deadline is not looked at yet.
    assert!(s.on_time_update(p, 9_000, 1_650).is_empty());
    assert_eq!(s.on_time_update(p, 12_000, 1_651), vec![Command::Pause]);
    assert_eq!(s.phase(), Phase::Paused);
    assert_eq!(s.sleep_deadline(), None);
    assert_eq!(s.offset(), 12_000);
    assert_eq!(s.on_time_update(p, 20_000, 1_700), vec![save(0, 20_000)]);
}

#[test]
fn sleep_expiry_still_saves_progress() {
    let (mut s, p) = playing(0, 0);
    s.on_time_update(p, 1_000, 0);
    s.arm_sleep(0, 10);
    assert_eq!(s.on_time_update(p, 16_000, 10), vec![Command::Pause, save(0, 16_000)]);
    assert_eq!(s.phase(), Phase::Paused);
}

#[test]
fn metadata_failure_is_reported() {
    let mut s = Session::new(ACCOUNT);
    let p = props(1, 0);
    s.load(p);
    s.on_metadata_failed(p);
    assert_eq!(s.phase(), Phase::Idle);
    assert_eq!(s.status(), Status::LoadFailed);
    assert_eq!(s.props(), None);
}

#[test]
fn listing_without_the_chapter_fails_the_load() {
    let mut s = Session::new(ACCOUNT);
    let p = props(9, 0);
    s.load(p);
    assert!(s.on_metadata_loaded(p, three_chapters()).is_empty());
    assert_eq!(s.status(), Status::LoadFailed);
}

#[test]
fn stale_metadata_is_ignored() {
    let mut s = Session::new(ACCOUNT);
    s.load(props(0, 0));
    s.load(props(1, 0));
    assert!(s.on_metadata_loaded(props(0, 0), three_chapters()).is_empty());
    assert_eq!(s.phase(), Phase::Loading);
    assert_eq!(s.props(), Some(props(1, 0)));
}

#[test]
fn toggle_pause_and_stop() {
    let (mut s, _p) = playing(0, 0);
    assert_eq!(s.toggle_pause(), vec![Command::Pause]);
    assert_eq!(s.phase(), Phase::Paused);
    assert_eq!(s.toggle_pause(), vec![Command::Resume]);
    s.arm_sleep(0, 60);
    s.stop();
    assert_eq!(s.phase(), Phase::Idle);
    assert_eq!(s.props(), None);
    assert_eq!(s.sleep_deadline(), None);
    assert!(s.toggle_pause().is_empty());
}

#[test]
fn events_before_load_do_nothing() {
    let mut s = Session::new(ACCOUNT);
    let p = props(0, 0);
    assert!(s.on_time_update(p, 10_000, 0).is_empty());
    assert!(s.on_ended(p).is_empty());
    assert_eq!(s.phase(), Phase::Idle);
    assert_eq!(s.status(), Status::Clear);
}

#[test]
fn resume_loads_saved_position() {
    let mut s = Session::new(ACCOUNT);
    let cmds = s.resume(1, Some(Snapshot { chapter_id: 2, offset: 61_500 }));
    assert_eq!(cmds, vec![Command::FetchMetadata { book_id: 1, chapter_id: 2 }]);
    assert_eq!(s.phase(), Phase::Loading);
    assert_eq!(s.props(), Some(props(2, 61_500)));
    assert_eq!(s.offset(), 61_500);
}

#[test]
fn resume_without_saved_position_does_nothing() {
    let (mut s, p) = playing(1, 0);
    assert!(s.resume(1, None).is_empty());
    assert_eq!(s.phase(), Phase::Playing);
    assert_eq!(s.props(), Some(p));
}

#[test]
fn navigation_saves_start_of_new_chapter_once() {
    let (mut s, p) = playing(0, 0);
    s.on_time_update(p, 30_000, 0);
    let cmds = s.on_ended(p);
    let saves: Vec<&Command> = cmds.iter().filter(|c| matches!(c, Command::SaveProgress(_))).collect();
    assert_eq!(saves, vec![&save(1, 0)]);
    assert_eq!(s.last_saved(), Some(Snapshot { chapter_id: 1, offset: 0 }));
    let next = props(1, 0);
    s.on_metadata_loaded(next, three_chapters());
    // The start was just saved, so an early update does not write again.
    assert!(s.on_time_update(next, 5_000, 0).is_empty());
}

#[test]
fn failed_load_after_navigation_keeps_nothing() {
    let (mut s, p) = playing(0, 0);
    s.on_ended(p);
    s.on_metadata_failed(props(1, 0));
    assert_eq!(s.phase(), Phase::Idle);
    assert_eq!(s.status(), Status::LoadFailed);
    assert_eq!(s.props(), None);
}

#[test]
fn skips_act_while_loading_the_same_book() {
    let (mut s, p) = playing(0, 0);
    s.on_skip_next(p);
    let loading = props(1, 0);
    assert_eq!(s.phase(), Phase::Loading);
    assert_eq!(s.on_skip_next(loading), vec![Command::FetchMetadata { book_id: 1, chapter_id: 2 }, save(2, 0)]);
    assert_eq!(s.props(), Some(props(2, 0)));
    assert_eq!(s.on_skip_previous(props(2, 0)), vec![Command::FetchMetadata { book_id: 1, chapter_id: 1 }, save(1, 0)]);
    assert_eq!(s.phase(), Phase::Loading);
}

#[test]
fn skip_next_while_loading_last_chapter_ends_book() {
    let (mut s, p) = playing(1, 0);
    s.on_skip_next(p);
    assert!(s.on_skip_next(props(2, 0)).is_empty());
    assert_eq!(s.phase(), Phase::Idle);
    assert_eq!(s.status(), Status::EndOfBook);
}

#[test]
fn skips_before_any_listing_do_nothing() {
    let mut s = Session::new(ACCOUNT);
    let p = props(1, 0);
    s.load(p);
    assert!(s.on_skip_next(p).is_empty());
    assert!(s.on_skip_previous(p).is_empty());
    assert_eq!(s.phase(), Phase::Loading);
    assert_eq!(s.props(), Some(p));
}

#[test]
fn loading_another_book_drops_the_listing() {
    let (mut s, _p) = playing(1, 0);
    let other = AudioProps { chapter_id: 1, book_id: 2, init_time: 0 };
    s.load(other);
    assert!(s.on_skip_next(other).is_empty());
    assert_eq!(s.props(), Some(other));
}

#[test]
fn ended_while_paused_advances() {
    let (mut s, p) = playing(0, 0);
    s.toggle_pause();
    assert_eq!(s.on_ended(p), vec![Command::FetchMetadata { book_id: 1, chapter_id: 1 }, save(1, 0)]);
    assert_eq!(s.status(), Status::Clear);
}
