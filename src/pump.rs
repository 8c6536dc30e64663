use vstd::prelude::*;

verus! {

/// The rate at which the engine's message pump is driven, in ticks per second.
pub const TICK_HZ: u64 = 60;

/// The period between two ticks, in whole milliseconds, for `hz` ticks a second.
pub fn tick_interval_ms(hz: u64) -> (r: u64)
    requires
        1 <= hz <= 1000,
    ensures
        r == 1000int / hz as int,
        r >= 1,
{
    assert(1000int / hz as int >= 1) by (nonlinear_arith)
        requires 1 <= hz <= 1000;
    1000 / hz
}

/// How many ticks a timer with period `interval_ms` fires within a window of
/// `window_ms` milliseconds.
pub fn ticks_in_window(window_ms: u64, interval_ms: u64) -> (r: u64)
    requires
        interval_ms >= 1,
    ensures
        r == window_ms as int / interval_ms as int,
{
    window_ms / interval_ms
}

/// With the period rounded down to whole milliseconds, a window never sees
/// fewer ticks than the nominal rate gives, and each tick falls inside it.
pub proof fn lemma_cadence_at_least_nominal(hz: u64, window_ms: u64)
    requires
        1 <= hz <= 1000,
    ensures
        ({
            let interval = 1000int / hz as int;
            let n = window_ms as int / interval;
            &&& n * interval <= window_ms
            &&& n >= window_ms as int * hz as int / 1000
        }),
{
    let h = hz as int;
    let w = window_ms as int;
    let interval = 1000int / h;
    assert(interval * h <= 1000) by (nonlinear_arith)
        requires interval == 1000int / h, h >= 1;
    assert(interval >= 1) by (nonlinear_arith)
        requires interval == 1000int / h, 1 <= h <= 1000;
    let n = w / interval;
    let m = w * h / 1000;
    assert(n * interval <= w) by (nonlinear_arith)
        requires n == w / interval, interval >= 1, w >= 0;
    assert(m * 1000 <= w * h) by (nonlinear_arith)
        requires m == w * h / 1000, w >= 0, h >= 1;
    assert(m * interval <= w) by (nonlinear_arith)
        requires m * 1000 <= w * h, interval * h <= 1000, interval >= 1, h >= 1, m >= 0, w >= 0;
    assert(m <= n) by (nonlinear_arith)
        requires m * interval <= w, n == w / interval, interval >= 1, m >= 0, w >= 0;
}

/// Stamps each tick that the timer produces with its number, from zero.
pub struct TickProducer {
    pub produced: u64,
}

/// What the relay hands to the consumer.
#[derive(Clone, Copy, Debug, PartialEq, Eq, Structural)]
pub enum PumpEvent {
    /// A tick with its number.
    Tick(u64),
    /// The relay was closed: the process is shutting down.
    Closed,
}

/// What the consumer does with one event.
#[derive(Clone, Copy, Debug, PartialEq, Eq, Structural)]
pub enum PumpAction {
    /// Run one unit of the engine's pending work.
    Advance,
    /// Leave the tick: it is not the one awaited next.
    Skip,
    /// Leave the consumption loop.
    Stop,
}

/// Runs one unit of engine work per tick, serially, in the order of the ticks.
pub struct TickConsumer {
    pub advanced: u64,
    pub stopped: bool,
}

impl TickProducer {
    pub fn new() -> (r: TickProducer)
        ensures
            r.produced == 0,
    {
        TickProducer { produced: 0 }
    }

    /// The number of the next tick.
    pub fn tick(&mut self) -> (r: u64)
        requires
            old(self).produced < u64::MAX,
        ensures
            r == old(self).produced,
            final(self).produced == old(self).produced + 1,
    {
        let n = self.produced;
        self.produced = n + 1;
        n
    }
}

/// The consumer's step: a tick is run when it is the one awaited next, and
/// closing the relay stops it for good.
pub open spec fn pump_step(advanced: u64, stopped: bool, e: PumpEvent) -> (u64, bool, PumpAction) {
    if stopped {
        (advanced, true, PumpAction::Stop)
    } else {
        match e {
            PumpEvent::Closed => (advanced, true, PumpAction::Stop),
            PumpEvent::Tick(n) => if n == advanced && advanced < u64::MAX {
                ((advanced + 1) as u64, false, PumpAction::Advance)
            } else {
                (advanced, false, PumpAction::Skip)
            },
        }
    }
}

/// The numbers of the ticks that the consumer runs, from a count of `advanced`,
/// when handed `ticks` in order.
pub open spec fn ticks_run(advanced: u64, ticks: Seq<u64>) -> Seq<u64>
    decreases ticks.len(),
{
    if ticks.len() == 0 {
        Seq::empty()
    } else {
        let (a, _, act) = pump_step(advanced, false, PumpEvent::Tick(ticks[0]));
        let rest = ticks_run(a, ticks.drop_first());
        if act == PumpAction::Advance {
            seq![ticks[0]].add(rest)
        } else {
            rest
        }
    }
}

impl TickConsumer {
    pub fn new() -> (r: TickConsumer)
        ensures
            r.advanced == 0,
            !r.stopped,
    {
        TickConsumer { advanced: 0, stopped: false }
    }

    /// Takes one event from the relay and says what to do with it.
    pub fn on_event(&mut self, e: PumpEvent) -> (r: PumpAction)
        ensures
            (final(self).advanced, final(self).stopped, r) == pump_step(old(self).advanced, old(self).stopped, e),
    {
        if self.stopped {
            return PumpAction::Stop;
        }
        match e {
            PumpEvent::Closed => {
                self.stopped = true;
                PumpAction::Stop
            },
            PumpEvent::Tick(n) => {
                if n == self.advanced && self.advanced < u64::MAX {
                    self.advanced = self.advanced + 1;
                    PumpAction::Advance
                } else {
                    PumpAction::Skip
                }
            },
        }
    }
}

/// Whatever the relay hands over, the ticks run are consecutive from the
/// consumer's count: none is run twice, and none out of order.
pub proof fn lemma_ticks_run_in_order(advanced: u64, ticks: Seq<u64>)
    ensures
        ticks_run(advanced, ticks).len() <= ticks.len(),
        forall|i: int|
            0 <= i < ticks_run(advanced, ticks).len() ==> #[trigger] ticks_run(advanced, ticks)[i] == advanced + i,
    decreases ticks.len(),
{
    if ticks.len() > 0 {
        let (a, _, act) = pump_step(advanced, false, PumpEvent::Tick(ticks[0]));
        lemma_ticks_run_in_order(a, ticks.drop_first());
        let rest = ticks_run(a, ticks.drop_first());
        if act == PumpAction::Advance {
            let out = seq![ticks[0]].add(rest);
            assert forall|i: int| 0 <= i < out.len() implies #[trigger] out[i] == advanced + i by {
                if i > 0 {
                    assert(out[i] == rest[i - 1]);
                }
            }
        }
    }
}

/// Handed the producer's ticks in the order they were made, the consumer runs
/// every one of them, once each, in that order.
pub proof fn lemma_ticks_from_producer_all_run(start: u64, n: nat)
    requires
        start + n < u64::MAX,
    ensures
        ({
            let ticks = Seq::new(n, |i: int| (start + i) as u64);
            ticks_run(start, ticks) == ticks
        }),
    decreases n,
{
    let ticks = Seq::new(n, |i: int| (start + i) as u64);
    if n > 0 {
        let next = (start + 1) as u64;
        lemma_ticks_from_producer_all_run(next, (n - 1) as nat);
        let rest = Seq::new((n - 1) as nat, |i: int| (next + i) as u64);
        assert(ticks.drop_first() =~= rest);
        assert(seq![ticks[0]].add(rest) =~= ticks);
    }
}

} // verus!
