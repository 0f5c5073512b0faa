//! Single timer for wallpaper cycling.
use std::time::Duration;
use vstd::prelude::*;

verus! {

/// `tokio::time::Instant`, carried through unchanged.
#[verifier::external_type_specification]
#[verifier::external_body]
pub struct ExInstant(tokio::time::Instant);

/// What `tokio::time::Instant::checked_add(at, delay)` returns: `at + delay`, or `None`
/// where that instant cannot be represented.
pub uninterp spec fn instant_sum(at: tokio::time::Instant, delay: Duration) -> Option<tokio::time::Instant>;

/// Calls `tokio::time::Instant::now()`. Nothing is claimed of the result: it is the clock.
#[verifier::external_body]
fn instant_now() -> (res: tokio::time::Instant) {
    tokio::time::Instant::now()
}

/// Calls `tokio::time::Instant::checked_add`, which does not panic. Claims that the
/// result is `instant_sum(at, delay)`.
#[verifier::external_body]
fn instant_checked_add(at: tokio::time::Instant, delay: Duration) -> (res: Option<tokio::time::Instant>)
    ensures
        res == instant_sum(at, delay),
{
    at.checked_add(delay)
}

/// When a scheduled timer fires.
#[derive(Debug, Clone, Copy)]
pub enum FireTime {
    /// At this instant.
    At(tokio::time::Instant),
    /// Never: the delay reaches past the last instant the clock can represent.
    Never,
}

/// The fire time `delay` after `now`: that instant, or never where it cannot be represented.
pub open spec fn deadline(now: tokio::time::Instant, delay: Duration) -> FireTime {
    match instant_sum(now, delay) {
        Some(t) => FireTime::At(t),
        None => FireTime::Never,
    }
}

/// Single timer for cycling interval. Only one timer can be active at a time.
pub struct CyclingTimer {
    fires_at: Option<FireTime>,
}

impl CyclingTimer {
    /// The scheduled fire time, if any.
    pub closed spec fn fire_time(&self) -> Option<FireTime> {
        self.fires_at
    }

    /// A fire time is scheduled.
    pub open spec fn scheduled(&self) -> bool {
        self.fire_time() is Some
    }

    /// Creates a new timer with no scheduled fire time.
    pub fn new() -> (res: Self)
        ensures
            !res.scheduled(),
    {
        CyclingTimer { fires_at: None }
    }

    /// Schedules the timer to fire after the given delay, replacing any scheduled time:
    /// the new fire time is `delay` after the instant the clock read (never, for a delay
    /// past the last instant the clock can represent).
    pub fn schedule(&mut self, delay: Duration)
        ensures
            exists|now: tokio::time::Instant| final(self).fire_time() == Some(deadline(now, delay)),
    {
        let now = instant_now();
        let fire = match instant_checked_add(now, delay) {
            Some(t) => FireTime::At(t),
            None => FireTime::Never,
        };
        self.fires_at = Some(fire);
        assert(self.fire_time() == Some(deadline(now, delay)));
    }

    /// Cancels the scheduled timer.
    pub fn cancel(&mut self)
        ensures
            !final(self).scheduled(),
    {
        self.fires_at = None;
    }

    /// Returns whether a timer is scheduled.
    pub fn is_scheduled(&self) -> (res: bool)
        ensures
            res == self.scheduled(),
    {
        self.fires_at.is_some()
    }

    /// What waiting begins with: the scheduled fire time is taken, so the timer must be
    /// rescheduled after it fires. `None` when nothing is scheduled (waiting returns at once).
    pub fn take_fire_time(&mut self) -> (res: Option<FireTime>)
        ensures
            res == old(self).fire_time(),
            !final(self).scheduled(),
    {
        self.fires_at.take()
    }
}

impl Default for CyclingTimer {
    fn default() -> (res: Self)
        ensures
            !res.scheduled(),
    {
        Self::new()
    }
}

} // verus!
