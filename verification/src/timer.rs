//! Phase timers: one-shot timers kept as plain values (armed duration, time
//! run, finished flag) and advanced by `bevy`'s `Timer::tick`.

use vstd::prelude::*;
use bevy::time::{Timer, TimerMode};
use std::time::Duration;

verus! {

/// Nanoseconds in a millisecond.
pub const NANOS_PER_MILLI: u64 = 1_000_000;

/// Longest armed duration: `u32::MAX` seconds, in milliseconds.
pub const MAX_ARMED_MS: u64 = 4_294_967_295_000;

/// Calls `bevy::time::Timer::tick` with `delta_ns` on a fresh one-shot timer
/// (`Timer::new` of `duration_ms`, `TimerMode::Once`) whose elapsed time was
/// set to `elapsed_ns` (`Timer::set_elapsed`), and reads back
/// `Timer::elapsed` and `Timer::just_finished`.
///
/// Trusted, as bevy's source shows it for an unpaused, unfinished one-shot
/// timer: the elapsed time grows by `delta_ns`; when it reaches the duration
/// the timer finishes on this tick and its elapsed time is set to the
/// duration.
#[verifier::external_body]
fn bevy_once_timer_tick(duration_ms: u64, elapsed_ns: u64, delta_ns: u64) -> (r: (u128, bool))
    ensures
        r.1 == (elapsed_ns + delta_ns >= duration_ms * 1_000_000),
        r.0 == if r.1 { duration_ms * 1_000_000 } else { elapsed_ns + delta_ns },
{
    let mut timer = Timer::new(Duration::from_millis(duration_ms), TimerMode::Once);
    timer.set_elapsed(Duration::from_nanos(elapsed_ns));
    timer.tick(Duration::from_nanos(delta_ns));
    (timer.elapsed().as_nanos(), timer.just_finished())
}

/// A one-shot phase timer: the duration it was armed with, the time it has
/// run, and whether it has finished.
pub struct PhaseTimer {
    duration_ms: u64,
    elapsed_ns: u64,
    finished: bool,
}

impl PhaseTimer {
    /// The time run never passes the armed duration, and a finished timer
    /// has run exactly that long.
    #[verifier::type_invariant]
    spec fn timer_inv(self) -> bool {
        &&& self.duration_ms <= MAX_ARMED_MS
        &&& self.elapsed_ns <= self.duration_ms * NANOS_PER_MILLI
        &&& self.finished ==> self.elapsed_ns == self.duration_ms * NANOS_PER_MILLI
    }

    /// Armed duration in milliseconds.
    pub closed spec fn armed_ms(self) -> nat {
        self.duration_ms as nat
    }

    /// Time run so far, in nanoseconds.
    pub closed spec fn elapsed_ns(self) -> nat {
        self.elapsed_ns as nat
    }

    /// Whether the timer has finished.
    pub closed spec fn has_finished(self) -> bool {
        self.finished
    }

    /// A tick of `delta_ns` finishes the timer: it had not finished, and the
    /// time run reaches the armed duration.
    pub open spec fn fires(self, delta_ns: u64) -> bool {
        !self.has_finished() && self.elapsed_ns() + delta_ns >= self.armed_ms() * 1_000_000
    }

    /// The timer after a tick of `delta_ns`: a finished timer stays as it
    /// is; otherwise it runs `delta_ns` longer, stopping at the armed
    /// duration, where it finishes.
    pub closed spec fn ticked(self, delta_ns: u64) -> Self {
        if self.finished {
            self
        } else if self.fires(delta_ns) {
            PhaseTimer { elapsed_ns: (self.duration_ms * NANOS_PER_MILLI) as u64, finished: true, ..self }
        } else {
            PhaseTimer { elapsed_ns: (self.elapsed_ns + delta_ns) as u64, ..self }
        }
    }

    /// Armed duration in milliseconds.
    pub fn duration_ms(&self) -> (ms: u64)
        ensures
            ms == self.armed_ms(),
    {
        self.duration_ms
    }

    /// A one-shot timer of `seconds` seconds, not yet run.
    pub fn once_seconds(seconds: u32) -> (t: Self)
        ensures
            t.armed_ms() == seconds as nat * 1000,
            t.elapsed_ns() == 0,
            !t.has_finished(),
    {
        let millis: u64 = seconds as u64 * 1000;
        PhaseTimer { duration_ms: millis, elapsed_ns: 0, finished: false }
    }

    /// A one-shot timer of `millis` milliseconds, not yet run.
    pub fn once_millis(millis: u32) -> (t: Self)
        ensures
            t.armed_ms() == millis as nat,
            t.elapsed_ns() == 0,
            !t.has_finished(),
    {
        PhaseTimer { duration_ms: millis as u64, elapsed_ns: 0, finished: false }
    }

    /// Advance the timer by `elapsed_nanos`; whether it finished on this
    /// tick. A finished timer does not run on and never finishes again.
    pub fn tick(&mut self, elapsed_nanos: u64) -> (finished: bool)
        ensures
            finished == old(self).fires(elapsed_nanos),
            *final(self) == old(self).ticked(elapsed_nanos),
            final(self).armed_ms() == old(self).armed_ms(),
            final(self).has_finished() == (old(self).has_finished() || finished),
            final(self).elapsed_ns() == if old(self).has_finished() {
                old(self).elapsed_ns() as int
            } else if finished {
                old(self).armed_ms() * 1_000_000 as int
            } else {
                old(self).elapsed_ns() + elapsed_nanos
            },
    {
        proof {
            use_type_invariant(&*self);
        }
        if self.finished {
            return false;
        }
        let duration_ms = self.duration_ms;
        let (after, just_finished) = bevy_once_timer_tick(duration_ms, self.elapsed_ns, elapsed_nanos);
        assert(after <= duration_ms * NANOS_PER_MILLI) by (nonlinear_arith)
            requires
                duration_ms <= MAX_ARMED_MS,
                after == if just_finished { duration_ms * 1_000_000 } else { self.elapsed_ns + elapsed_nanos },
                !just_finished ==> self.elapsed_ns + elapsed_nanos < duration_ms * 1_000_000,
        ;
        assert(duration_ms * NANOS_PER_MILLI <= u64::MAX) by (nonlinear_arith)
            requires
                duration_ms <= MAX_ARMED_MS,
        ;
        let after_ns = after as u64;
        *self = PhaseTimer { duration_ms, elapsed_ns: after_ns, finished: just_finished };
        just_finished
    }
}

} // verus!
