use vstd::prelude::*;

verus! {

/// What a tick of the sleep timer found.
#[derive(Clone, Copy, Debug, PartialEq, Eq, Structural)]
pub enum SleepCheck {
    Continue,
    Expired,
}

/// Outcome of checking a deadline at time `now`.
pub open spec fn check_outcome(deadline: Option<int>, now: int) -> SleepCheck {
    match deadline {
        Some(d) if now >= d => SleepCheck::Expired,
        _ => SleepCheck::Continue,
    }
}

/// The deadline after a check: it clears itself once it has expired.
pub open spec fn deadline_after_check(deadline: Option<int>, now: int) -> Option<int> {
    match deadline {
        Some(d) if now >= d => None,
        _ => deadline,
    }
}

/// A countdown to an optional wall-clock deadline, in seconds since the Unix
/// epoch, after which playback is to pause.
#[derive(Clone, Copy, Debug)]
pub struct SleepTimer {
    deadline: Option<i128>,
}

impl SleepTimer {
    pub closed spec fn deadline_spec(&self) -> Option<int> {
        match self.deadline {
            Some(d) => Some(d as int),
            None => None,
        }
    }

    /// A timer with no deadline.
    pub fn new() -> (r: SleepTimer)
        ensures
            r.deadline_spec() == None::<int>,
    {
        SleepTimer { deadline: None }
    }

    /// The armed deadline, if any.
    pub fn deadline(&self) -> (r: Option<i128>)
        ensures
            match r {
                Some(d) => self.deadline_spec() == Some(d as int),
                None => self.deadline_spec() == None::<int>,
            },
    {
        self.deadline
    }

    /// Whether a deadline is armed.
    pub fn is_armed(&self) -> (r: bool)
        ensures
            r == (self.deadline_spec() is Some),
    {
        self.deadline.is_some()
    }

    /// Sets the deadline to `now + duration` seconds, replacing any other.
    pub fn arm(&mut self, now: i64, duration: u64)
        ensures
            final(self).deadline_spec() == Some(now + duration),
    {
        self.deadline = Some(now as i128 + duration as i128);
    }

    /// Clears the deadline.
    pub fn cancel(&mut self)
        ensures
            final(self).deadline_spec() == None::<int>,
    {
        self.deadline = None;
    }

    /// Reports `Expired` when `now` has reached the deadline, and then clears
    /// it, so that one deadline expires exactly once.
    pub fn check(&mut self, now: i64) -> (r: SleepCheck)
        ensures
            r == check_outcome(old(self).deadline_spec(), now as int),
            final(self).deadline_spec() == deadline_after_check(old(self).deadline_spec(), now as int),
    {
        match self.deadline {
            Some(d) => {
                if now as i128 >= d {
                    self.deadline = None;
                    SleepCheck::Expired
                } else {
                    SleepCheck::Continue
                }
            },
            None => SleepCheck::Continue,
        }
    }
}

/// Once armed at `start` for `duration` seconds, the timer continues before
/// the deadline and leaves it in place, expires at the first check at or after
/// it, and then continues at any later check until it is armed again.
pub proof fn lemma_sleep_expires_once(start: int, duration: int, early: int, first: int, later: int)
    requires
        early < start + duration,
        start + duration <= first,
    ensures
        check_outcome(Some(start + duration), early) == SleepCheck::Continue,
        deadline_after_check(Some(start + duration), early) == Some(start + duration),
        check_outcome(Some(start + duration), first) == SleepCheck::Expired,
        deadline_after_check(Some(start + duration), first) == None::<int>,
        check_outcome(deadline_after_check(Some(start + duration), first), later) == SleepCheck::Continue,
{
}

} // verus!
