//! Skill cooldowns: one-shot, running bevy timers, held as plain values.
//!
//! A cooldown starts with a duration, counts the time that passes, and
//! finishes once that time reaches the duration; it then stays finished
//! until it is restarted.  The tick itself is bevy's `Timer::tick`.
use vstd::prelude::*;
use core::time::Duration;
use bevy::reflect::GetPath;
use bevy::time::{Timer, TimerMode};

verus! {

/// A span of time as bevy's `Duration` holds it: whole seconds and the
/// nanoseconds of the second that is not yet full.
#[derive(Clone, Copy, Debug, PartialEq, Eq, Structural)]
pub struct Span {
    pub secs: u64,
    pub nanos: u32,
}

/// The longest span there is, in nanoseconds.
pub open spec fn max_span_total() -> int {
    u64::MAX as int * 1_000_000_000 + 999_999_999
}

/// The span of `total` nanoseconds.
pub open spec fn span_of(total: int) -> Span {
    Span { secs: (total / 1_000_000_000) as u64, nanos: (total % 1_000_000_000) as u32 }
}

impl Span {
    /// The nanoseconds field holds less than a second.
    pub open spec fn wf(self) -> bool {
        self.nanos < 1_000_000_000
    }

    /// The span in nanoseconds.
    pub open spec fn total(self) -> int {
        self.secs as int * 1_000_000_000 + self.nanos as int
    }

    /// The empty span.
    pub fn zero() -> (s: Span)
        ensures
            s.wf(),
            s.total() == 0,
    {
        Span { secs: 0, nanos: 0 }
    }
}

/// A one-shot, running cooldown.
#[derive(Clone, Copy, Debug, PartialEq, Eq, Structural)]
pub struct Cooldown {
    /// How long the cooldown lasts.
    pub duration: Span,
    /// How much of it has passed.
    pub elapsed: Span,
    /// The cooldown is over.
    pub finished: bool,
    /// The cooldown ended during its last tick.
    pub just_finished: bool,
}

impl Cooldown {
    /// Both spans are well formed.
    pub open spec fn wf(self) -> bool {
        self.duration.wf() && self.elapsed.wf()
    }

    /// A tick by `delta` is defined: a running cooldown's elapsed time plus
    /// `delta` stays within the longest span.
    pub open spec fn tick_fits(self, delta: Span) -> bool {
        &&& self.wf()
        &&& delta.wf()
        &&& !self.finished ==> self.elapsed.total() + delta.total() <= max_span_total()
    }

    /// The cooldown after a tick by `delta`: a finished cooldown stays as it
    /// is and does not finish again; a running one adds `delta` to its
    /// elapsed time and finishes when that reaches its duration, its
    /// elapsed time then being its duration.
    pub open spec fn ticked(self, delta: Span) -> Cooldown {
        if self.finished {
            Cooldown {
                duration: self.duration,
                elapsed: self.elapsed,
                finished: true,
                just_finished: false,
            }
        } else if self.elapsed.total() + delta.total() >= self.duration.total() {
            Cooldown {
                duration: self.duration,
                elapsed: self.duration,
                finished: true,
                just_finished: true,
            }
        } else {
            Cooldown {
                duration: self.duration,
                elapsed: span_of(self.elapsed.total() + delta.total()),
                finished: false,
                just_finished: false,
            }
        }
    }

    /// The cooldown restarted with `duration`: nothing has passed and it is
    /// running.
    pub fn restart(&mut self, duration: Span)
        requires
            duration.wf(),
        ensures
            final(self).duration == duration,
            final(self).elapsed.total() == 0,
            final(self).wf(),
            !final(self).finished,
            !final(self).just_finished,
    {
        self.duration = duration;
        self.elapsed = Span::zero();
        self.finished = false;
        self.just_finished = false;
    }

    /// Advances the cooldown by `delta`.
    pub fn tick(&mut self, delta: Span)
        requires
            old(self).tick_fits(delta),
        ensures
            *final(self) == old(self).ticked(delta),
            final(self).wf(),
    {
        proof {
            lemma_ticked_wf(*self, delta);
        }
        *self = bevy_timer_tick(*self, delta);
    }
}

impl Default for Cooldown {
    /// A cooldown of no duration that has not run yet, as bevy's default
    /// timer.
    fn default() -> (c: Self)
        ensures
            c.duration.total() == 0,
            c.elapsed.total() == 0,
            c.wf(),
            !c.finished,
            !c.just_finished,
    {
        Cooldown {
            duration: Span::zero(),
            elapsed: Span::zero(),
            finished: false,
            just_finished: false,
        }
    }
}

/// Calls bevy's `Timer::tick` on the one-shot timer that holds `c`, and
/// reads the timer back.  The timer is built from `c` with `Timer::new`
/// (one-shot, running), `Timer::set_elapsed`, and its `finished` field set
/// through bevy's reflection; its count of finishes in the last tick is not
/// carried over, since `tick` overwrites it on every path.  For such a timer
/// bevy's source (`bevy_time` 0.12.1, `timer.rs`, `tick`) does what
/// `Cooldown::ticked` states: a finished one-shot timer keeps its elapsed
/// time and counts no finish; otherwise the stopwatch adds `delta` (a
/// `Duration` sum that panics on overflow, which `tick_fits` rules out),
/// the timer is finished when the elapsed time reaches the duration, and
/// then counts one finish and sets its elapsed time to the duration.
#[verifier::external_body]
fn bevy_timer_tick(c: Cooldown, delta: Span) -> (r: Cooldown)
    requires
        c.tick_fits(delta),
    ensures
        r == c.ticked(delta),
{
    let mut t = Timer::new(Duration::new(c.duration.secs, c.duration.nanos), TimerMode::Once);
    t.set_elapsed(Duration::new(c.elapsed.secs, c.elapsed.nanos));
    *t.path_mut::<bool>("finished").unwrap() = c.finished;
    t.tick(Duration::new(delta.secs, delta.nanos));
    let (d, e) = (t.duration(), t.elapsed());
    Cooldown {
        duration: Span { secs: d.as_secs(), nanos: d.subsec_nanos() },
        elapsed: Span { secs: e.as_secs(), nanos: e.subsec_nanos() },
        finished: t.finished(),
        just_finished: t.just_finished(),
    }
}

proof fn lemma_span_of(total: int)
    requires
        0 <= total <= max_span_total(),
    ensures
        span_of(total).wf(),
        span_of(total).total() == total,
{
    let s = total / 1_000_000_000;
    let n = total % 1_000_000_000;
    assert(total == s * 1_000_000_000 + n && 0 <= n < 1_000_000_000 && 0 <= s) by (nonlinear_arith)
        requires
            s == total / 1_000_000_000,
            n == total % 1_000_000_000,
            total >= 0,
    ;
    assert(s <= u64::MAX) by (nonlinear_arith)
        requires
            s * 1_000_000_000 + n <= u64::MAX as int * 1_000_000_000 + 999_999_999,
            0 <= n < 1_000_000_000,
            s >= 0,
    ;
}

/// A tick keeps a cooldown well formed, and a running cooldown that does
/// not finish counts the time that passed.
proof fn lemma_ticked_wf(c: Cooldown, delta: Span)
    requires
        c.tick_fits(delta),
    ensures
        c.ticked(delta).wf(),
        !c.finished && !c.ticked(delta).finished ==> c.ticked(delta).elapsed.total()
            == c.elapsed.total() + delta.total(),
{
    if !c.finished && c.elapsed.total() + delta.total() < c.duration.total() {
        assert(c.elapsed.total() >= 0 && delta.total() >= 0) by (nonlinear_arith)
            requires
                c.elapsed.nanos >= 0,
                delta.nanos >= 0,
                c.elapsed.secs >= 0,
                delta.secs >= 0,
        ;
        lemma_span_of(c.elapsed.total() + delta.total());
    }
}

/// A cooldown ends once per start: a tick that ends it leaves it finished,
/// and a finished cooldown never ends again nor changes until it is
/// restarted.  A running cooldown ends exactly in the tick that brings its
/// elapsed time to its duration, and otherwise counts that time.
pub proof fn lemma_cooldown_ends_once(c: Cooldown, delta: Span)
    requires
        c.tick_fits(delta),
    ensures
        c.ticked(delta).just_finished ==> c.ticked(delta).finished,
        c.finished ==> !c.ticked(delta).just_finished && c.ticked(delta).finished
            && c.ticked(delta).elapsed == c.elapsed,
        !c.finished ==> (c.ticked(delta).just_finished <==> c.elapsed.total() + delta.total()
            >= c.duration.total()),
        !c.finished && !c.ticked(delta).finished ==> c.ticked(delta).elapsed.total()
            == c.elapsed.total() + delta.total(),
        c.ticked(delta).duration == c.duration,
{
    lemma_ticked_wf(c, delta);
}

} // verus!
