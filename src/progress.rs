use vstd::prelude::*;

verus! {

/// Offset change, in milliseconds, from which a new position is worth saving.
pub const PERSIST_THRESHOLD_MS: u64 = 10_000;

/// The last position that was handed to the store: a chapter and an offset
/// in milliseconds.
#[derive(Clone, Copy, Debug, PartialEq, Eq, Structural)]
pub struct Snapshot {
    pub chapter_id: i32,
    pub offset: u64,
}

/// Whether an observed position is to be written.
#[derive(Clone, Copy, Debug, PartialEq, Eq, Structural)]
pub enum Decision {
    Skip,
    Persist,
}

/// Distance between two offsets.
pub open spec fn distance(a: u64, b: u64) -> nat {
    if a >= b { (a - b) as nat } else { (b - a) as nat }
}

/// A position is saved when nothing was saved yet, when the chapter changed,
/// or when the offset moved by at least the threshold, either way.
pub open spec fn should_persist(prev: Option<Snapshot>, chapter_id: i32, offset: u64) -> bool {
    match prev {
        None => true,
        Some(s) => s.chapter_id != chapter_id || distance(s.offset, offset) >= PERSIST_THRESHOLD_MS,
    }
}

pub open spec fn decide(prev: Option<Snapshot>, chapter_id: i32, offset: u64) -> Decision {
    if should_persist(prev, chapter_id, offset) { Decision::Persist } else { Decision::Skip }
}

/// The snapshot after an observation: replaced on `Persist`, kept on `Skip`.
pub open spec fn snapshot_after(prev: Option<Snapshot>, chapter_id: i32, offset: u64) -> Option<Snapshot> {
    if should_persist(prev, chapter_id, offset) {
        Some(Snapshot { chapter_id, offset })
    } else {
        prev
    }
}

/// Decisions of a run of observations on one chapter, from the snapshot `prev`.
pub open spec fn run_decisions(prev: Option<Snapshot>, chapter_id: i32, offsets: Seq<u64>) -> Seq<Decision>
    decreases offsets.len(),
{
    if offsets.len() == 0 {
        Seq::empty()
    } else {
        seq![decide(prev, chapter_id, offsets[0])] + run_decisions(
            snapshot_after(prev, chapter_id, offsets[0]),
            chapter_id,
            offsets.drop_first(),
        )
    }
}

/// The snapshot after a run of observations on one chapter.
pub open spec fn run_snapshot(prev: Option<Snapshot>, chapter_id: i32, offsets: Seq<u64>) -> Option<Snapshot>
    decreases offsets.len(),
{
    if offsets.len() == 0 {
        prev
    } else {
        run_snapshot(snapshot_after(prev, chapter_id, offsets[0]), chapter_id, offsets.drop_first())
    }
}

/// Throttles progress writes: remembers the last saved position and says
/// whether a new one differs enough to be saved.
#[derive(Clone, Copy, Debug)]
pub struct ProgressTracker {
    last: Option<Snapshot>,
}

impl ProgressTracker {
    pub closed spec fn last_saved(&self) -> Option<Snapshot> {
        self.last
    }

    /// A tracker that has saved nothing yet.
    pub fn new() -> (r: ProgressTracker)
        ensures
            r.last_saved() == None::<Snapshot>,
    {
        ProgressTracker { last: None }
    }

    /// The last position handed to the store, if any.
    pub fn last(&self) -> (r: Option<Snapshot>)
        ensures
            r == self.last_saved(),
    {
        self.last
    }

    /// Records that the position (`chapter_id`, `offset`) was handed to the
    /// store by other means than `observe`.
    pub fn mark_saved(&mut self, chapter_id: i32, offset: u64)
        ensures
            final(self).last_saved() == Some(Snapshot { chapter_id, offset }),
    {
        self.last = Some(Snapshot { chapter_id, offset });
    }

    /// Decides on one observed position of `book_id`. On `Persist` the
    /// snapshot is replaced before the caller dispatches the write, so a quick
    /// run of observations cannot trigger two writes for one change.
    pub fn observe(&mut self, book_id: i32, chapter_id: i32, offset: u64) -> (r: Decision)
        ensures
            r == decide(old(self).last_saved(), chapter_id, offset),
            final(self).last_saved() == snapshot_after(old(self).last_saved(), chapter_id, offset),
    {
        let persist = match self.last {
            None => true,
            Some(s) => {
                let d = if s.offset >= offset { s.offset - offset } else { offset - s.offset };
                s.chapter_id != chapter_id || d >= PERSIST_THRESHOLD_MS
            },
        };
        if persist {
            self.last = Some(Snapshot { chapter_id, offset });
            Decision::Persist
        } else {
            Decision::Skip
        }
    }
}

impl ProgressTracker {
    /// Observes the positions `offsets` of one chapter, in order, and returns
    /// the decision taken on each.
    pub fn observe_run(&mut self, book_id: i32, chapter_id: i32, offsets: &Vec<u64>) -> (r: Vec<Decision>)
        ensures
            r@ == run_decisions(old(self).last_saved(), chapter_id, offsets@),
            final(self).last_saved() == run_snapshot(old(self).last_saved(), chapter_id, offsets@),
    {
        let ghost start = self.last_saved();
        let n = offsets.len();
        let mut r: Vec<Decision> = Vec::new();
        let mut i: usize = 0;
        assert(offsets@.subrange(0, n as int) =~= offsets@);
        while i < n
            invariant
                i <= n,
                n == offsets@.len(),
                r@ + run_decisions(self.last_saved(), chapter_id, offsets@.subrange(i as int, n as int))
                    == run_decisions(start, chapter_id, offsets@),
                run_snapshot(self.last_saved(), chapter_id, offsets@.subrange(i as int, n as int))
                    == run_snapshot(start, chapter_id, offsets@),
            decreases n - i,
        {
            let ghost rest = offsets@.subrange(i as int, n as int);
            let ghost before = self.last_saved();
            assert(rest.drop_first() =~= offsets@.subrange(i + 1, n as int));
            assert(rest[0] == offsets@[i as int]);
            let d = self.observe(book_id, chapter_id, offsets[i]);
            let ghost r_before = r@;
            r.push(d);
            assert(r@ + run_decisions(self.last_saved(), chapter_id, offsets@.subrange(i + 1, n as int))
                =~= r_before + run_decisions(before, chapter_id, rest));
            i += 1;
        }
        assert(offsets@.subrange(n as int, n as int) =~= Seq::<u64>::empty());
        assert(r@ + run_decisions(self.last_saved(), chapter_id, Seq::<u64>::empty()) =~= r@);
        r
    }
}

/// A move of at least the threshold, forward or backward, is always saved.
pub proof fn lemma_large_move_persists(prev: Snapshot, chapter_id: i32, offset: u64)
    requires
        distance(prev.offset, offset) >= PERSIST_THRESHOLD_MS,
    ensures
        decide(Some(prev), chapter_id, offset) == Decision::Persist,
        snapshot_after(Some(prev), chapter_id, offset) == Some(Snapshot { chapter_id, offset }),
{
}

/// In a run of strictly increasing offsets on one chapter that all stay below
/// the saved offset (after the first observation) plus the threshold, only the
/// first observation can be saved.
pub proof fn lemma_increasing_run_persists_at_most_first(
    prev: Option<Snapshot>,
    chapter_id: i32,
    offsets: Seq<u64>,
)
    requires
        offsets.len() >= 1,
        forall|i: int, j: int| 0 <= i < j < offsets.len() ==> offsets[i] < offsets[j],
        forall|i: int|
            0 <= i < offsets.len() ==> #[trigger] offsets[i] < snapshot_after(prev, chapter_id, offsets[0])->Some_0.offset
                + PERSIST_THRESHOLD_MS,
    ensures
        run_decisions(prev, chapter_id, offsets).len() == offsets.len(),
        forall|i: int|
            1 <= i < offsets.len() ==> run_decisions(prev, chapter_id, offsets)[i] == Decision::Skip,
{
    let s = snapshot_after(prev, chapter_id, offsets[0]);
    let rest = offsets.drop_first();
    assert(s is Some);
    let base = s->Some_0;
    assert(base.chapter_id == chapter_id);
    assert(offsets[0] + PERSIST_THRESHOLD_MS > base.offset) by {
        if should_persist(prev, chapter_id, offsets[0]) {
        } else {
            assert(distance(base.offset, offsets[0]) < PERSIST_THRESHOLD_MS);
        }
    }
    assert forall|i: int| 0 <= i < rest.len() implies distance(base.offset, #[trigger] rest[i]) < PERSIST_THRESHOLD_MS by {
        assert(rest[i] == offsets[i + 1]);
        assert(offsets[0] < offsets[i + 1]);
        assert(offsets[i + 1] < base.offset + PERSIST_THRESHOLD_MS);
    }
    lemma_run_within_band(base, chapter_id, rest);
    let r = run_decisions(prev, chapter_id, offsets);
    assert forall|i: int| 1 <= i < offsets.len() implies r[i] == Decision::Skip by {
        assert(r[i] == run_decisions(Some(base), chapter_id, rest)[i - 1]);
    }
}

/// From a snapshot on the same chapter, offsets strictly inside the band
/// around it are all skipped, and the snapshot stays as it is.
proof fn lemma_run_within_band(base: Snapshot, chapter_id: i32, offsets: Seq<u64>)
    requires
        base.chapter_id == chapter_id,
        forall|i: int| 0 <= i < offsets.len() ==> distance(base.offset, #[trigger] offsets[i]) < PERSIST_THRESHOLD_MS,
    ensures
        run_decisions(Some(base), chapter_id, offsets).len() == offsets.len(),
        forall|i: int|
            0 <= i < offsets.len() ==> run_decisions(Some(base), chapter_id, offsets)[i] == Decision::Skip,
    decreases offsets.len(),
{
    if offsets.len() > 0 {
        let rest = offsets.drop_first();
        assert(distance(base.offset, offsets[0]) < PERSIST_THRESHOLD_MS);
        assert forall|i: int| 0 <= i < rest.len() implies distance(base.offset, #[trigger] rest[i]) < PERSIST_THRESHOLD_MS by {
            assert(rest[i] == offsets[i + 1]);
        }
        lemma_run_within_band(base, chapter_id, rest);
        let r = run_decisions(Some(base), chapter_id, offsets);
        assert forall|i: int| 0 <= i < offsets.len() implies r[i] == Decision::Skip by {
            if i > 0 {
                assert(r[i] == run_decisions(Some(base), chapter_id, rest)[i - 1]);
            }
        }
    }
}

} // verus!
