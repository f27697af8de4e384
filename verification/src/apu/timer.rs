//! Timer abstraction for the audio channels.
use vstd::prelude::*;
use crate::common::ResetKind;

verus! {

/// A timer that generates a clock signal based on a period. The timer expires every
/// `period + 1` cycles.
#[derive(Debug, Clone, Copy, PartialEq, Eq, Structural)]
pub struct Timer {
    pub cycle: u32,
    pub counter: u16,
    pub period: u16,
}

/// The timer after one cycle: the counter counts down and reloads from the period on the cycle
/// it reads zero.
pub open spec fn tick_state(t: Timer) -> Timer {
    Timer {
        cycle: (t.cycle + 1) as u32,
        counter: if t.counter == 0 { t.period } else { (t.counter - 1) as u16 },
        period: t.period,
    }
}

/// Whether the next cycle from `t` is an expiry.
pub open spec fn expires(t: Timer) -> bool {
    t.counter == 0
}

/// The timer after `n` cycles.
pub open spec fn ticked(t: Timer, n: nat) -> Timer
    decreases n,
{
    if n == 0 {
        t
    } else {
        tick_state(ticked(t, (n - 1) as nat))
    }
}

/// Counting down without reaching zero only moves the counter and the cycle.
pub proof fn lemma_ticked_within_counter(t: Timer, n: nat)
    requires
        n <= t.counter,
        t.cycle + n <= u32::MAX,
    ensures
        ticked(t, n) == (Timer { cycle: (t.cycle + n) as u32, counter: (t.counter - n) as u16, period: t.period }),
        forall|i: nat| i < n ==> !expires(#[trigger] ticked(t, i)),
    decreases n,
{
    if n > 0 {
        lemma_ticked_within_counter(t, (n - 1) as nat);
        assert forall|i: nat| i < n implies !expires(#[trigger] ticked(t, i)) by {
            if i < n - 1 {
            } else {
                assert(i == n - 1);
            }
        }
    }
}

/// Ticking `a` cycles and then `b` more is ticking `a + b` cycles.
proof fn lemma_ticked_adds(t: Timer, a: nat, b: nat)
    ensures
        ticked(ticked(t, a), b) == ticked(t, a + b),
    decreases b,
{
    if b > 0 {
        lemma_ticked_adds(t, a, (b - 1) as nat);
        assert((a + b - 1) as nat == a + (b - 1) as nat);
    }
}

/// The cycles the timer stands at right after each expiry among `n` ticks from `t`, in order:
/// what a caller records each time [`Timer::tick`] returns `true`.
pub open spec fn tick_expiries(t: Timer, n: nat) -> Seq<u32>
    decreases n,
{
    if n == 0 {
        Seq::empty()
    } else if expires(ticked(t, (n - 1) as nat)) {
        tick_expiries(t, (n - 1) as nat).push(ticked(t, n).cycle)
    } else {
        tick_expiries(t, (n - 1) as nat)
    }
}

/// `while timer.run_to(target) {}` from `t`: the cycles the timer stands at each time `run_to`
/// returns `true`, and the timer once it has returned `false`. Each `true` leaves the timer
/// `counter + 1` cycles on, reloaded, as `run_to` ensures.
pub open spec fn run_to_loop(t: Timer, target: u32) -> (Seq<u32>, Timer)
    decreases target - t.cycle,
{
    if target <= t.cycle {
        (Seq::empty(), t)
    } else if target - t.cycle > t.counter {
        let next = Timer { cycle: (t.cycle + t.counter + 1) as u32, counter: t.period, period: t.period };
        let (cycles, last) = run_to_loop(next, target);
        (seq![next.cycle] + cycles, last)
    } else {
        (Seq::empty(), ticked(t, (target - t.cycle) as nat))
    }
}

/// Ticks with no expiry among them record nothing.
proof fn lemma_no_expiries(t: Timer, n: nat)
    requires
        forall|i: nat| i < n ==> !expires(#[trigger] ticked(t, i)),
    ensures
        tick_expiries(t, n) == Seq::<u32>::empty(),
    decreases n,
{
    if n > 0 {
        lemma_no_expiries(t, (n - 1) as nat);
        assert(!expires(ticked(t, (n - 1) as nat)));
    }
}

/// The expiries of `a + b` ticks are those of the first `a`, then those of the `b` after them.
proof fn lemma_tick_expiries_split(t: Timer, a: nat, b: nat)
    ensures
        tick_expiries(t, a + b) == tick_expiries(t, a) + tick_expiries(ticked(t, a), b),
    decreases b,
{
    if b == 0 {
        assert(tick_expiries(t, a) + Seq::<u32>::empty() =~= tick_expiries(t, a));
    } else {
        lemma_tick_expiries_split(t, a, (b - 1) as nat);
        lemma_ticked_adds(t, a, (b - 1) as nat);
        lemma_ticked_adds(t, a, b);
        assert((a + b - 1) as nat == a + (b - 1) as nat);
        let u = ticked(t, a);
        if expires(ticked(u, (b - 1) as nat)) {
            assert(tick_expiries(t, a) + tick_expiries(u, (b - 1) as nat).push(ticked(u, b).cycle)
                =~= (tick_expiries(t, a) + tick_expiries(u, (b - 1) as nat)).push(ticked(u, b).cycle));
        }
    }
}

/// Driving a timer with `while timer.run_to(target) {}` stops on exactly the cycles that ticking
/// it one cycle at a time up to `target` expires on, and leaves it in the same state.
pub proof fn lemma_run_to_loop_matches_ticking(t: Timer, target: u32)
    requires
        t.cycle <= target,
    ensures
        run_to_loop(t, target) == (tick_expiries(t, (target - t.cycle) as nat), ticked(t, (target - t.cycle) as nat)),
    decreases target - t.cycle,
{
    let r = (target - t.cycle) as nat;
    if r == 0 {
    } else if r <= t.counter {
        lemma_ticked_within_counter(t, r);
        lemma_no_expiries(t, r);
    } else {
        let c = t.counter as nat;
        let next = Timer { cycle: (t.cycle + t.counter + 1) as u32, counter: t.period, period: t.period };
        lemma_ticked_within_counter(t, c);
        lemma_no_expiries(t, c);
        assert(ticked(t, c + 1) == tick_state(ticked(t, c)));
        assert(ticked(t, c + 1) == next);
        assert(tick_expiries(t, c + 1) == seq![next.cycle]);
        lemma_run_to_loop_matches_ticking(next, target);
        lemma_tick_expiries_split(t, c + 1, (r - c - 1) as nat);
        lemma_ticked_adds(t, c + 1, (r - c - 1) as nat);
        assert(c + 1 + (r - c - 1) as nat == r);
        assert((target - next.cycle) as nat == (r - c - 1) as nat);
    }
}

impl Timer {
    /// A timer with the given period whose first cycle is an expiry.
    pub fn new(period: u16) -> (t: Self)
        ensures
            t == (Timer { cycle: 0, counter: 0, period }),
    {
        Self { cycle: 0, counter: 0, period }
    }

    /// A timer with the given period that first expires after a full period.
    pub fn preload(period: u16) -> (t: Self)
        ensures
            t == (Timer { cycle: 0, counter: period, period }),
    {
        let mut timer = Self::new(period);
        timer.counter = timer.period;
        timer
    }

    /// Restarts the countdown from the period.
    pub fn reload(&mut self)
        ensures
            *final(self) == (Timer { counter: old(self).period, ..*old(self) }),
    {
        self.counter = self.period;
    }

    /// Advances one cycle, returning whether the timer expired on it.
    pub fn tick(&mut self) -> (expired: bool)
        requires
            old(self).cycle < u32::MAX,
        ensures
            *final(self) == tick_state(*old(self)),
            expired == expires(*old(self)),
    {
        self.cycle = self.cycle + 1;
        if self.counter == 0 {
            self.counter = self.period;
            return true;
        }
        self.counter = self.counter - 1;
        false
    }

    /// Advances toward `target`, stopping at each expiry.
    ///
    /// Returns `true` having advanced to the cycle the timer expired on, so a caller drives it
    /// as `while timer.run_to(target) { .. }`; the `false` that ends the loop leaves the timer at
    /// `target`. A target already behind the timer does nothing.
    ///
    /// This is [`Timer::tick`] with the cycles in between collapsed into one subtraction: the
    /// state reached is exactly that of ticking once per cycle, and the only expiry among those
    /// cycles is the last one, when `true` is returned.
    pub fn run_to(&mut self, target: u32) -> (expired: bool)
        ensures
            target <= old(self).cycle ==> !expired && *final(self) == *old(self),
            target > old(self).cycle ==> {
                let remaining = (target - old(self).cycle) as nat;
                let steps: nat = if expired { (old(self).counter + 1) as nat } else { remaining };
                &&& expired <==> remaining > old(self).counter
                &&& *final(self) == ticked(*old(self), steps)
                &&& forall|i: nat| i < steps ==> (expires(#[trigger] ticked(*old(self), i)) <==> (expired && i == steps - 1))
            },
    {
        if target <= self.cycle {
            return false;
        }
        let remaining = target - self.cycle;
        let ghost start = *self;
        if remaining > self.counter as u32 {
            proof {
                let c = start.counter as nat;
                lemma_ticked_within_counter(start, c);
                assert(ticked(start, c + 1) == tick_state(ticked(start, c)));
            }
            self.cycle = self.cycle + self.counter as u32 + 1;
            self.counter = self.period;
            return true;
        }
        proof {
            lemma_ticked_within_counter(start, remaining as nat);
        }
        self.counter = self.counter - remaining as u16;
        self.cycle = target;
        false
    }

    /// Stops the timer and clears its period.
    pub fn reset(&mut self, _kind: ResetKind)
        ensures
            *final(self) == (Timer { cycle: 0, counter: 0, period: 0 }),
    {
        self.counter = 0;
        self.period = 0;
        self.cycle = 0;
    }
}

impl Default for Timer {
    fn default() -> (t: Self)
        ensures
            t == (Timer { cycle: 0, counter: 0, period: 0 }),
    {
        Timer::new(0)
    }
}

} // verus!
