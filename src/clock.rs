//! A fixed-rate tick clock that decouples simulation steps from the frame rate.
//!
//! Time is measured in whole clock units, `CLOCK_UNITS_PER_SECOND` of them per
//! second. The unit is chosen so that a tick, and a third of a tick, are whole
//! numbers of units, and so that arithmetic on the clock is exact.
use vstd::prelude::*;
use vstd::arithmetic::div_mod::{
    lemma_add_mod_noop, lemma_div_is_ordered, lemma_fundamental_div_mod, lemma_mod_self_0,
    lemma_small_mod,
};

verus! {

/// Clock units in one second of wall time.
pub const CLOCK_UNITS_PER_SECOND: u64 = 360_000_000;

/// Length of one simulation tick at normal speed: one sixth of a second.
pub const TICK_SPEED: u64 = 60_000_000;

/// Length of one simulation tick when the simulation runs four times slower.
pub const QUARTER_SPEED_TICK: u64 = 240_000_000;

/// The value of `get_tick_progress` that stands for a whole tick: the fraction
/// is given in millionths.
pub const PROGRESS_ONE: u64 = 1_000_000;

/// What a `TickClock` holds, as mathematical values.
pub struct ClockView {
    /// Clock units accumulated since the last tick.
    pub progress: nat,
    /// Clock units in one tick.
    pub speed: nat,
    /// Whether the last `advance` crossed a tick boundary.
    pub ticked: bool,
}

impl ClockView {
    /// The tick length is one of the two configured lengths, and the progress
    /// lies inside the current tick.
    pub open spec fn wf(self) -> bool {
        &&& (self.speed == TICK_SPEED || self.speed == QUARTER_SPEED_TICK)
        &&& self.progress < self.speed
    }

    /// The clock after a frame of `dt` units: at most one tick is signalled,
    /// and the progress wraps back into the current tick.
    pub open spec fn advance(self, dt: nat) -> ClockView {
        ClockView {
            progress: ((self.progress + dt) as int % self.speed as int) as nat,
            speed: self.speed,
            ticked: self.progress + dt >= self.speed,
        }
    }

    /// The clock after one frame for each element of `dts`, in order.
    pub open spec fn advance_all(self, dts: Seq<nat>) -> ClockView
        decreases dts.len(),
    {
        if dts.len() == 0 {
            self
        } else {
            self.advance_all(dts.drop_last()).advance(dts.last())
        }
    }

    /// How far into the current tick the clock is, in millionths (rounded down).
    pub open spec fn fraction(self) -> nat {
        ((self.progress * PROGRESS_ONE) as int / self.speed as int) as nat
    }
}

/// Sum of a sequence of frame lengths.
pub open spec fn total(dts: Seq<nat>) -> nat
    decreases dts.len(),
{
    if dts.len() == 0 {
        0
    } else {
        total(dts.drop_last()) + dts.last()
    }
}

/// Frames that together stay short of the end of the current tick never signal
/// a tick, and after each of them the progress fraction is no smaller than
/// before it.
pub proof fn lemma_short_frames_never_tick(c: ClockView, dts: Seq<nat>)
    requires
        c.wf(),
        c.progress + total(dts) < c.speed,
    ensures
        forall|i: int|
            0 < i <= dts.len() ==> !(#[trigger] c.advance_all(dts.take(i))).ticked,
        forall|i: int|
            0 <= i < dts.len() ==> (#[trigger] c.advance_all(dts.take(i))).fraction()
                <= c.advance_all(dts.take(i + 1)).fraction(),
    decreases dts.len(),
{
    if dts.len() > 0 {
        let init = dts.drop_last();
        lemma_short_frames_never_tick(c, init);
        lemma_advance_all_accumulates(c, dts);
        assert forall|i: int| 0 < i <= dts.len() implies !(#[trigger] c.advance_all(
            dts.take(i),
        )).ticked by {
            if i < dts.len() {
                assert(dts.take(i) =~= init.take(i));
            } else {
                assert(dts.take(i) =~= dts);
            }
        }
        assert forall|i: int| 0 <= i < dts.len() implies (#[trigger] c.advance_all(
            dts.take(i),
        )).fraction() <= c.advance_all(dts.take(i + 1)).fraction() by {
            assert(dts.take(i) =~= init.take(i));
            if i + 1 < dts.len() {
                assert(dts.take(i + 1) =~= init.take(i + 1));
            } else {
                assert(dts.take(i + 1) =~= dts);
                assert(init.take(i) =~= init);
                let x = c.advance_all(init).progress;
                let y = c.advance_all(dts).progress;
                assert(x * PROGRESS_ONE <= y * PROGRESS_ONE) by (nonlinear_arith)
                    requires
                        x <= y,
                ;
                lemma_div_is_ordered((x * PROGRESS_ONE) as int, (y * PROGRESS_ONE) as int, c.speed as int);
            }
        }
    }
}

/// While the frames stay short of the end of the current tick, the progress is
/// the sum of the frames so far.
proof fn lemma_advance_all_accumulates(c: ClockView, dts: Seq<nat>)
    requires
        c.wf(),
        c.progress + total(dts) < c.speed,
    ensures
        c.advance_all(dts).progress == c.progress + total(dts),
        c.advance_all(dts).speed == c.speed,
        dts.len() > 0 ==> !c.advance_all(dts).ticked,
        dts.len() > 0 ==> c.advance_all(dts.drop_last()).progress <= c.advance_all(dts).progress,
    decreases dts.len(),
{
    if dts.len() > 0 {
        lemma_advance_all_accumulates(c, dts.drop_last());
        let before = c.advance_all(dts.drop_last());
        lemma_small_mod((before.progress + dts.last()) as nat, c.speed);
    }
}

/// From the start of a tick, a frame exactly one tick long signals a tick and
/// leaves the clock at the start of the next one.
pub proof fn lemma_full_tick_from_rest(c: ClockView)
    requires
        c.wf(),
        c.progress == 0,
    ensures
        c.advance(c.speed).ticked,
        c.advance(c.speed).progress == 0,
{
    lemma_mod_self_0(c.speed as int);
}

/// From the start of a tick, three frames of a third of a tick each signal a
/// tick on the third frame only, which ends exactly at the start of the next
/// tick.
pub proof fn lemma_three_thirds_tick_once(c: ClockView)
    requires
        c.wf(),
        c.progress == 0,
    ensures
        !c.advance(c.speed / 3).ticked,
        !c.advance(c.speed / 3).advance(c.speed / 3).ticked,
        c.advance(c.speed / 3).advance(c.speed / 3).advance(c.speed / 3).ticked,
        c.advance(c.speed / 3).advance(c.speed / 3).advance(c.speed / 3).progress == 0,
{
    let d = c.speed / 3;
    lemma_small_mod(d, c.speed);
    lemma_small_mod(2 * d, c.speed);
    lemma_mod_self_0(c.speed as int);
}

/// Accumulates elapsed time and signals when a simulation tick is due.
pub struct TickClock {
    tick_progress: u64,
    tick_this_frame: bool,
    tick_speed: u64,
}

impl View for TickClock {
    type V = ClockView;

    closed spec fn view(&self) -> ClockView {
        ClockView {
            progress: self.tick_progress as nat,
            speed: self.tick_speed as nat,
            ticked: self.tick_this_frame,
        }
    }
}

impl TickClock {
    /// The progress always lies inside the current tick.
    #[verifier::type_invariant]
    spec fn inv(self) -> bool {
        self@.wf()
    }

    /// A clock at normal speed, with no time accumulated and no tick pending.
    pub fn new() -> (r: TickClock)
        ensures
            r@.wf(),
            r@ == (ClockView { progress: 0, speed: TICK_SPEED as nat, ticked: false }),
    {
        TickClock { tick_progress: 0, tick_this_frame: false, tick_speed: TICK_SPEED }
    }

    /// A clock whose ticks are four times longer, with no time accumulated.
    pub fn new_quarter_speed() -> (r: TickClock)
        ensures
            r@.wf(),
            r@ == (ClockView { progress: 0, speed: QUARTER_SPEED_TICK as nat, ticked: false }),
    {
        TickClock { tick_progress: 0, tick_this_frame: false, tick_speed: QUARTER_SPEED_TICK }
    }

    /// How far into the current tick the clock is, in millionths of a tick:
    /// always below `PROGRESS_ONE`.
    pub fn get_tick_progress(&self) -> (r: u64)
        ensures
            self@.wf(),
            r == self@.fraction(),
            r < PROGRESS_ONE,
    {
        proof {
            use_type_invariant(self);
        }
        let p = self.tick_progress;
        let s = self.tick_speed;
        assert(p * PROGRESS_ONE < s * PROGRESS_ONE) by (nonlinear_arith)
            requires p < s;
        let r = p * PROGRESS_ONE / s;
        proof {
            lemma_fundamental_div_mod((p * PROGRESS_ONE) as int, s as int);
            assert(r < PROGRESS_ONE) by (nonlinear_arith)
                requires
                    p * PROGRESS_ONE == s * r + (p * PROGRESS_ONE) % (s as int),
                    0 <= (p * PROGRESS_ONE) % (s as int),
                    p * PROGRESS_ONE < s * PROGRESS_ONE,
                    s > 0,
            ;
        }
        r
    }

    /// Whether the last `advance` crossed a tick boundary.
    pub fn is_tick_this_frame(&self) -> (r: bool)
        ensures
            self@.wf(),
            r == self@.ticked,
    {
        proof {
            use_type_invariant(self);
        }
        self.tick_this_frame
    }

    /// Adds a frame of `dt` clock units. The tick flag is set when the
    /// accumulated time reaches a whole tick; the progress then wraps, and
    /// whole ticks beyond the first are dropped.
    pub fn advance(&mut self, dt: u64)
        ensures
            old(self)@.wf(),
            final(self)@.wf(),
            final(self)@ == old(self)@.advance(dt as nat),
    {
        proof {
            use_type_invariant(&*self);
        }
        let p = self.tick_progress;
        let s = self.tick_speed;
        let rest = dt % s;
        let wrapped = (p + rest) % s;
        proof {
            lemma_small_mod(p as nat, s as nat);
            lemma_add_mod_noop(p as int, dt as int, s as int);
            lemma_small_mod(rest as nat, s as nat);
        }
        self.tick_this_frame = dt >= s - p;
        self.tick_progress = wrapped;
    }
}

impl Default for TickClock {
    fn default() -> (r: TickClock)
        ensures
            r@.wf(),
            r@ == (ClockView { progress: 0, speed: TICK_SPEED as nat, ticked: false }),
    {
        TickClock::new()
    }
}

/// The run criterion of the tick stage: it runs only in a frame in which the
/// clock signalled a tick.
pub fn only_on_tick(tick_clock: &TickClock) -> (r: bool)
    ensures
        r == tick_clock@.ticked,
{
    tick_clock.is_tick_this_frame()
}

} // verus!
