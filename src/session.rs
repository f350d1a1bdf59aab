use vstd::prelude::*;
use crate::navigator::{next_spec, previous_spec, BookChapters, ChapterRef};
use crate::progress::{distance, should_persist, snapshot_after, Decision, ProgressTracker, Snapshot, PERSIST_THRESHOLD_MS};
use crate::sleep::{check_outcome, SleepCheck, SleepTimer};

verus! {

/// Length, in seconds of playback, of the tick on which the sleep timer is checked.
pub const SLEEP_TICK_SECONDS: u64 = 4;

/// What to play now: a chapter of a book and the offset, in milliseconds,
/// to start from.
#[derive(Clone, Copy, Debug, PartialEq, Eq, Structural)]
pub struct AudioProps {
    pub chapter_id: i32,
    pub book_id: i32,
    pub init_time: u64,
}

/// Where a session stands.
#[derive(Clone, Copy, Debug, PartialEq, Eq, Structural)]
pub enum Phase {
    /// Nothing to play.
    Idle,
    /// The book and chapter of the current props are being fetched.
    Loading,
    Playing,
    Paused,
}

/// The last terminal signal of a session, shown to the user.
#[derive(Clone, Copy, Debug, PartialEq, Eq, Structural)]
pub enum Status {
    Clear,
    /// Playback ran past the last chapter of the book.
    EndOfBook,
    /// The book or chapter of the last load could not be fetched.
    LoadFailed,
}

/// An upsert of the progress record of (`account_id`, `music_id`).
/// `progress` is an offset in milliseconds.
#[derive(Clone, Copy, Debug, PartialEq, Eq, Structural)]
pub struct SetProgress {
    pub account_id: i32,
    pub music_id: i32,
    pub chapter_id: i32,
    pub progress: u64,
}

/// What the session asks its surroundings to do.
#[derive(Clone, Copy, Debug, PartialEq, Eq, Structural)]
pub enum Command {
    /// Fetch the book and the chapter, then report with `on_metadata_loaded`
    /// or `on_metadata_failed`.
    FetchMetadata { book_id: i32, chapter_id: i32 },
    /// Start the player on these props, from their `init_time`.
    Play(AudioProps),
    Pause,
    Resume,
    /// Write the progress record; a failure is not reported back.
    SaveProgress(SetProgress),
}

/// The abstract state of a session.
pub ghost struct SessionModel {
    pub account_id: i32,
    pub phase: Phase,
    pub status: Status,
    pub props: Option<AudioProps>,
    /// Chapter identifiers, by ordinal, of the last listing fetched for the
    /// book of `props`; empty when none was fetched yet.
    pub chapters: Seq<i32>,
    /// Ordinal of the chapter of `props` in `chapters`, when it is listed there.
    pub ordinal: int,
    /// Current playback offset, in milliseconds.
    pub offset: u64,
    pub last_saved: Option<Snapshot>,
    pub sleep_deadline: Option<int>,
}

pub open spec fn is_active(m: SessionModel) -> bool {
    m.phase == Phase::Playing || m.phase == Phase::Paused
}

pub open spec fn is_current(m: SessionModel, props: AudioProps) -> bool {
    m.props == Some(props)
}

/// Whether the chapter of `props` can be placed in the listing at hand.
pub open spec fn is_listed(m: SessionModel, props: AudioProps) -> bool {
    m.chapters.contains(props.chapter_id)
}

/// Idle exactly when there is nothing to play, and then with no listing;
/// no terminal status outside Idle; the ordinal places the current chapter
/// in the listing; while playing or paused the chapter is listed.
pub open spec fn model_wf(m: SessionModel) -> bool {
    &&& (m.phase == Phase::Idle <==> m.props is None)
    &&& m.phase == Phase::Idle ==> m.chapters.len() == 0 && m.ordinal == 0
    &&& m.phase != Phase::Idle ==> m.status == Status::Clear
    &&& m.props is Some ==> if is_listed(m, m.props->Some_0) {
        &&& m.chapters.index_of_first(m.props->Some_0.chapter_id) == Some(m.ordinal)
        &&& 0 <= m.ordinal < m.chapters.len()
        &&& m.chapters[m.ordinal] == m.props->Some_0.chapter_id
    } else {
        m.ordinal == 0
    }
    &&& is_active(m) ==> is_listed(m, m.props->Some_0)
}

pub open spec fn initial_model(account_id: i32) -> SessionModel {
    SessionModel {
        account_id,
        phase: Phase::Idle,
        status: Status::Clear,
        props: None,
        chapters: Seq::empty(),
        ordinal: 0,
        offset: 0,
        last_saved: None,
        sleep_deadline: None,
    }
}

/// The listing is kept when the new props are of the same book.
pub open spec fn keeps_listing(m: SessionModel, props: AudioProps) -> bool {
    m.props is Some && m.props->Some_0.book_id == props.book_id
}

/// The session waiting for the metadata of `props`.
pub open spec fn loading(m: SessionModel, props: AudioProps) -> SessionModel {
    let chapters = if keeps_listing(m, props) { m.chapters } else { Seq::empty() };
    SessionModel {
        phase: Phase::Loading,
        status: Status::Clear,
        props: Some(props),
        chapters,
        ordinal: if chapters.contains(props.chapter_id) {
            chapters.index_of_first(props.chapter_id)->Some_0
        } else {
            0
        },
        offset: props.init_time,
        ..m
    }
}

/// The session with nothing to play and the given terminal status.
pub open spec fn idle(m: SessionModel, status: Status) -> SessionModel {
    SessionModel { phase: Phase::Idle, status, props: None, chapters: Seq::empty(), ordinal: 0, ..m }
}

pub open spec fn fetch_command(props: AudioProps) -> Command {
    Command::FetchMetadata { book_id: props.book_id, chapter_id: props.chapter_id }
}

pub open spec fn save_command(m: SessionModel, book_id: i32, chapter_id: i32, offset: u64) -> Command {
    Command::SaveProgress(SetProgress { account_id: m.account_id, music_id: book_id, chapter_id, progress: offset })
}

/// Whether the listing of `book_id` fits the props being loaded.
pub open spec fn listing_fits(props: AudioProps, book_id: i32, chapters: Seq<i32>) -> bool {
    book_id == props.book_id && chapters.contains(props.chapter_id)
}

pub open spec fn after_metadata_loaded(m: SessionModel, props: AudioProps, book_id: i32, chapters: Seq<i32>) -> SessionModel {
    if m.phase == Phase::Loading && is_current(m, props) {
        if listing_fits(props, book_id, chapters) {
            SessionModel {
                phase: Phase::Playing,
                chapters,
                ordinal: chapters.index_of_first(props.chapter_id)->Some_0,
                ..m
            }
        } else {
            idle(m, Status::LoadFailed)
        }
    } else {
        m
    }
}

pub open spec fn metadata_loaded_commands(m: SessionModel, props: AudioProps, book_id: i32, chapters: Seq<i32>) -> Seq<Command> {
    if m.phase == Phase::Loading && is_current(m, props) && listing_fits(props, book_id, chapters) {
        seq![Command::Play(props)]
    } else {
        seq![]
    }
}

pub open spec fn after_metadata_failed(m: SessionModel, props: AudioProps) -> SessionModel {
    if m.phase == Phase::Loading && is_current(m, props) {
        idle(m, Status::LoadFailed)
    } else {
        m
    }
}

/// Whether an offset falls on a sleep-timer tick: its whole seconds are a
/// multiple of the tick.
pub open spec fn on_sleep_tick(offset: u64) -> bool {
    (offset / 1000) % SLEEP_TICK_SECONDS == 0
}

/// Whether a time update at `now` finds the sleep deadline passed.
pub open spec fn sleep_expires(m: SessionModel, offset: u64, now: int) -> bool {
    on_sleep_tick(offset) && check_outcome(m.sleep_deadline, now) == SleepCheck::Expired
}

pub open spec fn after_time_update(m: SessionModel, props: AudioProps, offset: u64, now: int) -> SessionModel {
    if is_active(m) && is_current(m, props) {
        let observed = SessionModel {
            offset,
            last_saved: snapshot_after(m.last_saved, props.chapter_id, offset),
            ..m
        };
        if sleep_expires(m, offset, now) {
            SessionModel { phase: Phase::Paused, sleep_deadline: None, ..observed }
        } else {
            observed
        }
    } else {
        m
    }
}

pub open spec fn time_update_commands(m: SessionModel, props: AudioProps, offset: u64, now: int) -> Seq<Command> {
    if is_active(m) && is_current(m, props) {
        let pause: Seq<Command> = if sleep_expires(m, offset, now) { seq![Command::Pause] } else { seq![] };
        let save: Seq<Command> = if should_persist(m.last_saved, props.chapter_id, offset) {
            seq![save_command(m, props.book_id, props.chapter_id, offset)]
        } else {
            seq![]
        };
        pause + save
    } else {
        seq![]
    }
}

/// The props that start the chapter with identifier `chapter_id` from its beginning.
pub open spec fn chapter_start(props: AudioProps, chapter_id: i32) -> AudioProps {
    AudioProps { chapter_id, book_id: props.book_id, init_time: 0 }
}

/// A move to the listed chapter `chapter_id` of the book of `props`: it is
/// loaded from its start, and that start is saved as the book's progress.
pub open spec fn moved_to(m: SessionModel, props: AudioProps, chapter_id: i32) -> SessionModel {
    SessionModel {
        last_saved: Some(Snapshot { chapter_id, offset: 0 }),
        ..loading(m, chapter_start(props, chapter_id))
    }
}

pub open spec fn move_commands(m: SessionModel, props: AudioProps, chapter_id: i32) -> Seq<Command> {
    seq![fetch_command(chapter_start(props, chapter_id)), save_command(m, props.book_id, chapter_id, 0)]
}

/// Moving forward from the current chapter: to the next one, or to the end
/// of the book.
pub open spec fn forward(m: SessionModel, props: AudioProps) -> SessionModel {
    match next_spec(props.book_id, m.chapters, m.ordinal) {
        Some(c) => moved_to(m, props, c.id),
        None => idle(m, Status::EndOfBook),
    }
}

pub open spec fn forward_commands(m: SessionModel, props: AudioProps) -> Seq<Command> {
    match next_spec(props.book_id, m.chapters, m.ordinal) {
        Some(c) => move_commands(m, props, c.id),
        None => seq![],
    }
}

pub open spec fn after_ended(m: SessionModel, props: AudioProps) -> SessionModel {
    if is_active(m) && is_current(m, props) { forward(m, props) } else { m }
}

pub open spec fn ended_commands(m: SessionModel, props: AudioProps) -> Seq<Command> {
    if is_active(m) && is_current(m, props) { forward_commands(m, props) } else { seq![] }
}

/// A skip acts from any phase but Idle, once the current chapter is placed
/// in a listing of its book.
pub open spec fn can_skip(m: SessionModel, props: AudioProps) -> bool {
    m.phase != Phase::Idle && is_current(m, props) && is_listed(m, props)
}

pub open spec fn after_skip_next(m: SessionModel, props: AudioProps) -> SessionModel {
    if can_skip(m, props) { forward(m, props) } else { m }
}

pub open spec fn skip_next_commands(m: SessionModel, props: AudioProps) -> Seq<Command> {
    if can_skip(m, props) { forward_commands(m, props) } else { seq![] }
}

pub open spec fn after_skip_previous(m: SessionModel, props: AudioProps) -> SessionModel {
    if can_skip(m, props) {
        match previous_spec(props.book_id, m.chapters, m.ordinal) {
            Some(c) => moved_to(m, props, c.id),
            None => m,
        }
    } else {
        m
    }
}

pub open spec fn skip_previous_commands(m: SessionModel, props: AudioProps) -> Seq<Command> {
    if can_skip(m, props) {
        match previous_spec(props.book_id, m.chapters, m.ordinal) {
            Some(c) => move_commands(m, props, c.id),
            None => seq![],
        }
    } else {
        seq![]
    }
}

/// The props that resume `book_id` at a saved position.
pub open spec fn resume_props(book_id: i32, saved: Snapshot) -> AudioProps {
    AudioProps { chapter_id: saved.chapter_id, book_id, init_time: saved.offset }
}

pub open spec fn after_toggle_pause(m: SessionModel) -> SessionModel {
    if m.phase == Phase::Playing {
        SessionModel { phase: Phase::Paused, ..m }
    } else if m.phase == Phase::Paused {
        SessionModel { phase: Phase::Playing, ..m }
    } else {
        m
    }
}

pub open spec fn toggle_pause_commands(m: SessionModel) -> Seq<Command> {
    if m.phase == Phase::Playing {
        seq![Command::Pause]
    } else if m.phase == Phase::Paused {
        seq![Command::Resume]
    } else {
        seq![]
    }
}

/// A time update captured under other props than the current ones changes
/// nothing and asks for no write, so a late update from a previous chapter
/// can never be saved under the new chapter.
pub proof fn lemma_stale_time_update_ignored(m: SessionModel, props: AudioProps, offset: u64, now: int)
    requires
        !is_current(m, props),
    ensures
        after_time_update(m, props, offset, now) == m,
        time_update_commands(m, props, offset, now) == Seq::<Command>::empty(),
{
}

/// During playback, a time update that moves at least the threshold away
/// from the saved position, forward or backward, writes exactly that
/// position once (when the sleep timer does not expire on it).
pub proof fn lemma_session_large_move_persists(
    m: SessionModel,
    props: AudioProps,
    saved: Snapshot,
    offset: u64,
    now: int,
)
    requires
        is_active(m),
        is_current(m, props),
        m.last_saved == Some(saved),
        distance(saved.offset, offset) >= PERSIST_THRESHOLD_MS,
        !sleep_expires(m, offset, now),
    ensures
        time_update_commands(m, props, offset, now) == seq![save_command(m, props.book_id, props.chapter_id, offset)],
        after_time_update(m, props, offset, now).last_saved == Some(
            Snapshot { chapter_id: props.chapter_id, offset },
        ),
{
    assert(seq![] + seq![save_command(m, props.book_id, props.chapter_id, offset)] =~= seq![
        save_command(m, props.book_id, props.chapter_id, offset),
    ]);
}

/// Playback that ends on the last chapter ends the book with no command;
/// skipping back from the first chapter changes nothing.
pub proof fn lemma_session_navigation_ends(m: SessionModel, props: AudioProps)
    requires
        model_wf(m),
        is_current(m, props),
    ensures
        is_active(m) && m.ordinal == m.chapters.len() - 1 ==> after_ended(m, props) == idle(m, Status::EndOfBook)
            && ended_commands(m, props) == Seq::<Command>::empty(),
        m.ordinal == 0 ==> after_skip_previous(m, props) == m && skip_previous_commands(m, props) == Seq::<
            Command,
        >::empty(),
{
}

/// One playback session: the controller that turns player events into
/// commands, keeping the progress throttle and the sleep timer.
#[derive(Debug)]
pub struct Session {
    account_id: i32,
    phase: Phase,
    status: Status,
    props: Option<AudioProps>,
    book: Option<BookChapters>,
    ordinal: usize,
    offset: u64,
    tracker: ProgressTracker,
    timer: SleepTimer,
}

impl View for Session {
    type V = SessionModel;

    closed spec fn view(&self) -> SessionModel {
        SessionModel {
            account_id: self.account_id,
            phase: self.phase,
            status: self.status,
            props: self.props,
            chapters: match self.book {
                Some(b) => b@,
                None => Seq::empty(),
            },
            ordinal: self.ordinal as int,
            offset: self.offset,
            last_saved: self.tracker.last_saved(),
            sleep_deadline: self.timer.deadline_spec(),
        }
    }
}

fn same_props(current: Option<AudioProps>, props: AudioProps) -> (r: bool)
    ensures
        r == (current == Some(props)),
{
    match current {
        Some(p) => p == props,
        None => false,
    }
}

impl Session {
    pub closed spec fn wf(&self) -> bool {
        &&& model_wf(self@)
        &&& self.book is Some ==> self.props is Some && self.book->Some_0.book() == self.props->Some_0.book_id
    }

    /// An idle session of the account `account_id`.
    pub fn new(account_id: i32) -> (r: Session)
        ensures
            r.wf(),
            model_wf(r@),
            r@ == initial_model(account_id),
    {
        Session {
            account_id,
            phase: Phase::Idle,
            status: Status::Clear,
            props: None,
            book: None,
            ordinal: 0,
            offset: 0,
            tracker: ProgressTracker::new(),
            timer: SleepTimer::new(),
        }
    }

    /// Starts loading `props`, from any phase. The listing at hand is kept
    /// when `props` is of the same book.
    pub fn load(&mut self, props: AudioProps) -> (r: Vec<Command>)
        requires
            old(self).wf(),
        ensures
            final(self).wf(),
            model_wf(final(self)@),
            final(self)@ == loading(old(self)@, props),
            r@ == seq![fetch_command(props)],
    {
        let keep = match &self.book {
            Some(b) => b.book_id() == props.book_id,
            None => false,
        };
        if !keep {
            self.book = None;
        }
        let ordinal = match &self.book {
            Some(b) => match b.ordinal_of(props.chapter_id) {
                Some(k) => k,
                None => 0,
            },
            None => 0,
        };
        self.phase = Phase::Loading;
        self.status = Status::Clear;
        self.props = Some(props);
        self.ordinal = ordinal;
        self.offset = props.init_time;
        assert(self@ == loading(old(self)@, props));
        vec![Command::FetchMetadata { book_id: props.book_id, chapter_id: props.chapter_id }]
    }

    /// Resumes `book_id` at the position saved for it, if one was saved;
    /// without one nothing happens.
    pub fn resume(&mut self, book_id: i32, saved: Option<Snapshot>) -> (r: Vec<Command>)
        requires
            old(self).wf(),
        ensures
            final(self).wf(),
            model_wf(final(self)@),
            match saved {
                Some(s) => final(self)@ == loading(old(self)@, resume_props(book_id, s)) && r@ == seq![
                    fetch_command(resume_props(book_id, s)),
                ],
                None => final(self)@ == old(self)@ && r@ == Seq::<Command>::empty(),
            },
    {
        match saved {
            Some(s) => self.load(AudioProps { chapter_id: s.chapter_id, book_id, init_time: s.offset }),
            None => Vec::new(),
        }
    }

    /// The book listing for the props being loaded has arrived. A reply for
    /// other props than the current ones is ignored.
    pub fn on_metadata_loaded(&mut self, props: AudioProps, chapters: BookChapters) -> (r: Vec<Command>)
        requires
            old(self).wf(),
        ensures
            final(self).wf(),
            model_wf(final(self)@),
            final(self)@ == after_metadata_loaded(old(self)@, props, chapters.book(), chapters@),
            r@ == metadata_loaded_commands(old(self)@, props, chapters.book(), chapters@),
    {
        if self.phase != Phase::Loading || !same_props(self.props, props) {
            return Vec::new();
        }
        let found = if chapters.book_id() == props.book_id {
            chapters.ordinal_of(props.chapter_id)
        } else {
            None
        };
        match found {
            Some(k) => {
                self.phase = Phase::Playing;
                self.book = Some(chapters);
                self.ordinal = k;
                vec![Command::Play(props)]
            },
            None => {
                self.go_idle(Status::LoadFailed);
                Vec::new()
            },
        }
    }

    /// Fetching the metadata for `props` failed: the session gives up on
    /// them and reports the failure.
    pub fn on_metadata_failed(&mut self, props: AudioProps)
        requires
            old(self).wf(),
        ensures
            final(self).wf(),
            model_wf(final(self)@),
            final(self)@ == after_metadata_failed(old(self)@, props),
    {
        if self.phase == Phase::Loading && same_props(self.props, props) {
            self.go_idle(Status::LoadFailed);
        }
    }

    fn go_idle(&mut self, status: Status)
        ensures
            final(self)@ == idle(old(self)@, status),
            final(self).book is None,
    {
        self.phase = Phase::Idle;
        self.status = status;
        self.props = None;
        self.book = None;
        self.ordinal = 0;
    }

    /// The player reached `offset` (milliseconds) of the chapter of `props`,
    /// at wall-clock time `now` (seconds). On a sleep tick an expired timer
    /// pauses playback; in every case the position goes through the progress
    /// throttle. Updates for other props than the current ones are ignored.
    pub fn on_time_update(&mut self, props: AudioProps, offset: u64, now: i64) -> (r: Vec<Command>)
        requires
            old(self).wf(),
        ensures
            final(self).wf(),
            model_wf(final(self)@),
            final(self)@ == after_time_update(old(self)@, props, offset, now as int),
            r@ == time_update_commands(old(self)@, props, offset, now as int),
    {
        let active = self.phase == Phase::Playing || self.phase == Phase::Paused;
        if !active || !same_props(self.props, props) {
            return Vec::new();
        }
        let mut r: Vec<Command> = Vec::new();
        if (offset / 1000) % SLEEP_TICK_SECONDS == 0 {
            let c = self.timer.check(now);
            if c == SleepCheck::Expired {
                self.phase = Phase::Paused;
                r.push(Command::Pause);
            }
        }
        self.offset = offset;
        let d = self.tracker.observe(props.book_id, props.chapter_id, offset);
        if d == Decision::Persist {
            r.push(
                Command::SaveProgress(
                    SetProgress {
                        account_id: self.account_id,
                        music_id: props.book_id,
                        chapter_id: props.chapter_id,
                        progress: offset,
                    },
                ),
            );
        }
        assert(r@ =~= time_update_commands(old(self)@, props, offset, now as int));
        r
    }

    /// Loads the chapter `chapter_id` of the book of `props` from its start
    /// and saves that start as the book's progress.
    fn move_to(&mut self, props: AudioProps, chapter_id: i32) -> (r: Vec<Command>)
        requires
            old(self).wf(),
            is_current(old(self)@, props),
        ensures
            final(self).wf(),
            model_wf(final(self)@),
            final(self)@ == moved_to(old(self)@, props, chapter_id),
            r@ == move_commands(old(self)@, props, chapter_id),
    {
        let mut r = self.load(AudioProps { chapter_id, book_id: props.book_id, init_time: 0 });
        self.tracker.mark_saved(chapter_id, 0);
        r.push(
            Command::SaveProgress(
                SetProgress { account_id: self.account_id, music_id: props.book_id, chapter_id, progress: 0 },
            ),
        );
        r
    }

    /// Moves to the chapter after the current one, from its start, or ends
    /// the book.
    fn step_forward(&mut self, props: AudioProps) -> (r: Vec<Command>)
        requires
            old(self).wf(),
            old(self)@.phase != Phase::Idle,
            is_current(old(self)@, props),
            is_listed(old(self)@, props),
        ensures
            final(self).wf(),
            model_wf(final(self)@),
            final(self)@ == forward(old(self)@, props),
            r@ == forward_commands(old(self)@, props),
    {
        let next: Option<ChapterRef> = match &self.book {
            Some(b) => b.next(self.ordinal),
            None => None,
        };
        match next {
            Some(c) => self.move_to(props, c.id),
            None => {
                self.go_idle(Status::EndOfBook);
                Vec::new()
            },
        }
    }

    /// The chapter of `props` played to its end: the next chapter is loaded
    /// from its start, and that start is saved as the book's progress; or the
    /// session ends at the end of the book.
    pub fn on_ended(&mut self, props: AudioProps) -> (r: Vec<Command>)
        requires
            old(self).wf(),
        ensures
            final(self).wf(),
            model_wf(final(self)@),
            final(self)@ == after_ended(old(self)@, props),
            r@ == ended_commands(old(self)@, props),
    {
        let active = self.phase == Phase::Playing || self.phase == Phase::Paused;
        if !active || !same_props(self.props, props) {
            return Vec::new();
        }
        self.step_forward(props)
    }

    /// Whether a skip from `props` can act: the session is not idle, `props`
    /// are current, and their chapter is placed in the listing.
    fn skippable(&self, props: AudioProps) -> (r: bool)
        requires
            self.wf(),
        ensures
            r == can_skip(self@, props),
    {
        if self.phase == Phase::Idle || !same_props(self.props, props) {
            return false;
        }
        match &self.book {
            Some(b) => b.ordinal_of(props.chapter_id).is_some(),
            None => false,
        }
    }

    /// The user skipped forward: like reaching the end of the chapter, and
    /// also while the chapter is still loading.
    pub fn on_skip_next(&mut self, props: AudioProps) -> (r: Vec<Command>)
        requires
            old(self).wf(),
        ensures
            final(self).wf(),
            model_wf(final(self)@),
            final(self)@ == after_skip_next(old(self)@, props),
            r@ == skip_next_commands(old(self)@, props),
    {
        if !self.skippable(props) {
            return Vec::new();
        }
        self.step_forward(props)
    }

    /// The user skipped back: the previous chapter is loaded from its start,
    /// and that start is saved as the book's progress; at the first chapter
    /// nothing happens.
    pub fn on_skip_previous(&mut self, props: AudioProps) -> (r: Vec<Command>)
        requires
            old(self).wf(),
        ensures
            final(self).wf(),
            model_wf(final(self)@),
            final(self)@ == after_skip_previous(old(self)@, props),
            r@ == skip_previous_commands(old(self)@, props),
    {
        if !self.skippable(props) {
            return Vec::new();
        }
        let previous: Option<ChapterRef> = match &self.book {
            Some(b) => b.previous(self.ordinal),
            None => None,
        };
        match previous {
            Some(c) => self.move_to(props, c.id),
            None => Vec::new(),
        }
    }

    /// The user pressed play/pause.
    pub fn toggle_pause(&mut self) -> (r: Vec<Command>)
        requires
            old(self).wf(),
        ensures
            final(self).wf(),
            model_wf(final(self)@),
            final(self)@ == after_toggle_pause(old(self)@),
            r@ == toggle_pause_commands(old(self)@),
    {
        if self.phase == Phase::Playing {
            self.phase = Phase::Paused;
            vec![Command::Pause]
        } else if self.phase == Phase::Paused {
            self.phase = Phase::Playing;
            vec![Command::Resume]
        } else {
            Vec::new()
        }
    }

    /// Ends the session: nothing to play, and no sleep deadline.
    pub fn stop(&mut self)
        requires
            old(self).wf(),
        ensures
            final(self).wf(),
            model_wf(final(self)@),
            final(self)@ == (SessionModel { sleep_deadline: None, ..idle(old(self)@, Status::Clear) }),
    {
        self.go_idle(Status::Clear);
        self.timer.cancel();
    }

    /// Pauses playback `duration` seconds after the wall-clock time `now`.
    pub fn arm_sleep(&mut self, now: i64, duration: u64)
        requires
            old(self).wf(),
        ensures
            final(self).wf(),
            model_wf(final(self)@),
            final(self)@ == (SessionModel { sleep_deadline: Some(now + duration), ..old(self)@ }),
    {
        self.timer.arm(now, duration);
    }

    /// Removes the sleep deadline.
    pub fn cancel_sleep(&mut self)
        requires
            old(self).wf(),
        ensures
            final(self).wf(),
            model_wf(final(self)@),
            final(self)@ == (SessionModel { sleep_deadline: None, ..old(self)@ }),
    {
        self.timer.cancel();
    }

    pub fn phase(&self) -> (r: Phase)
        ensures
            r == self@.phase,
    {
        self.phase
    }

    pub fn status(&self) -> (r: Status)
        ensures
            r == self@.status,
    {
        self.status
    }

    /// What is being loaded or played, if anything.
    pub fn props(&self) -> (r: Option<AudioProps>)
        ensures
            r == self@.props,
    {
        self.props
    }

    /// The current playback offset, in milliseconds.
    pub fn offset(&self) -> (r: u64)
        ensures
            r == self@.offset,
    {
        self.offset
    }

    /// The last position handed to the store.
    pub fn last_saved(&self) -> (r: Option<Snapshot>)
        ensures
            r == self@.last_saved,
    {
        self.tracker.last()
    }

    /// The armed sleep deadline, in seconds since the Unix epoch.
    pub fn sleep_deadline(&self) -> (r: Option<i128>)
        ensures
            match r {
                Some(d) => self@.sleep_deadline == Some(d as int),
                None => self@.sleep_deadline == None::<int>,
            },
    {
        self.timer.deadline()
    }
}

} // verus!
