//! The backtest signal engine: an explicit finite-state machine over the
//! per-bar trigger conditions of a pairs-trading strategy.
//!
//! The engine works on plain decisions. The caller evaluates the numeric
//! comparisons for each bar (indicator against the four thresholds, the
//! relation gate, the stop-loss test and the sign of the running P&L) and
//! hands them over as [`StepFlags`]; the engine decides entries and exits,
//! records the per-bar signal and transaction-cost legs, counts trades, and
//! finally applies the lookahead-bias shift.

use vstd::prelude::*;

verus! {

/// Which of the two price series is held long when a long signal fires.
#[derive(Debug, Clone, Copy, PartialEq, Eq, Structural)]
pub enum LongSeries {
    Series0,
    Series1,
}

/// Which derived series drives entry and exit triggers.
#[derive(Debug, Clone, Copy, PartialEq, Eq, Structural)]
pub enum TriggerIndicator {
    Zscore,
    Spread,
}

/// The relation gate an entry must pass: a rolling cointegration test, a
/// rolling correlation test, or no gate at all.
#[derive(Debug, Clone, Copy, PartialEq, Eq, Structural)]
pub enum Relation {
    Coint,
    Corr,
    Ignore,
}

/// The per-step position of the strategy.
#[derive(Debug, Clone, Copy, PartialEq, Eq, Structural)]
pub enum Position {
    Flat,
    Long,
    Short,
}

/// The decisions already taken on a single bar, handed to the engine.
///
/// Each field is the outcome of a numeric comparison that the caller makes
/// on the bar's data; the engine applies the state-dependent gating.
#[derive(Debug, Clone, Copy, PartialEq, Eq, Structural)]
pub struct StepFlags {
    /// The relation gate passed (always true for `Relation::Ignore`).
    pub relation_ok: bool,
    /// The indicator is at or below the long-open threshold.
    pub long_open: bool,
    /// The indicator is at or above the short-open threshold.
    pub short_open: bool,
    /// The indicator is at or above the long-close threshold.
    pub long_close: bool,
    /// The indicator is at or below the short-close threshold.
    pub short_close: bool,
    /// A stop loss is configured and the running P&L has fallen to or
    /// below it.
    pub stop_hit: bool,
    /// The running P&L, after charging the exit-side cost, is positive.
    pub profit_positive: bool,
}

/// What the caller must do to its running P&L tracker after a step.
#[derive(Debug, Clone, Copy, PartialEq, Eq, Structural)]
pub enum TrackerAction {
    /// A trade opened: set the tracker to the negated round-trip entry cost.
    OpenReset,
    /// A trade closed: charge the exit cost, classify, reset the tracker.
    CloseSettle,
    /// Still in a position: add the bar's combined oriented leg returns.
    Accumulate,
    /// Flat: the tracker stays at zero.
    Idle,
}

/// Everything a single step of the state machine decides.
#[derive(Debug, Clone, Copy, PartialEq, Eq, Structural)]
pub struct Transition {
    /// The position after the step.
    pub next: Position,
    /// The signal recorded for the bar: +1 long, -1 short, 0 flat.
    pub signal: i32,
    /// Transaction-cost legs charged on entry (two on an open, else zero).
    pub open_legs: u32,
    /// Transaction-cost legs charged on exit (two on a close, else zero).
    pub close_legs: u32,
    /// A trade was opened on this bar.
    pub opened: bool,
    /// A trade was closed on this bar.
    pub closed: bool,
    /// The closed trade ended with a positive running P&L.
    pub profitable: bool,
    /// What the caller's P&L tracker must do.
    pub tracker: TrackerAction,
}

/// Counts of trades opened, closed, and closed in profit.
#[derive(Debug, Clone, Copy, PartialEq, Eq, Structural)]
pub struct TradeCounters {
    pub opened: u32,
    pub closed: u32,
    pub closed_profit: u32,
}

/// The signal a position propagates on a bar without entry or exit.
pub open spec fn signal_of(p: Position) -> int {
    match p {
        Position::Flat => 0,
        Position::Long => 1,
        Position::Short => -1,
    }
}

/// A long entry fires: flat, gate passed, indicator at or below the
/// long-open threshold.
pub open spec fn spec_entry_long(p: Position, f: StepFlags) -> bool {
    p is Flat && f.relation_ok && f.long_open
}

/// A short entry fires: flat, gate passed, indicator at or above the
/// short-open threshold, and the long entry (checked first) did not fire.
pub open spec fn spec_entry_short(p: Position, f: StepFlags) -> bool {
    p is Flat && f.relation_ok && f.short_open && !f.long_open
}

/// An exit fires: the close trigger matching the open side, or the stop
/// loss, while in a position.
pub open spec fn spec_exit(p: Position, f: StepFlags) -> bool {
    ||| p is Long && (f.long_close || f.stop_hit)
    ||| p is Short && (f.short_close || f.stop_hit)
}

/// The full transition relation of the engine on one bar.
pub open spec fn spec_step(p: Position, f: StepFlags) -> Transition {
    if spec_entry_long(p, f) {
        Transition {
            next: Position::Long,
            signal: 1,
            open_legs: 2,
            close_legs: 0,
            opened: true,
            closed: false,
            profitable: false,
            tracker: TrackerAction::OpenReset,
        }
    } else if spec_entry_short(p, f) {
        Transition {
            next: Position::Short,
            signal: (-1) as i32,
            open_legs: 2,
            close_legs: 0,
            opened: true,
            closed: false,
            profitable: false,
            tracker: TrackerAction::OpenReset,
        }
    } else if spec_exit(p, f) {
        Transition {
            next: Position::Flat,
            signal: 0,
            open_legs: 0,
            close_legs: 2,
            opened: false,
            closed: true,
            profitable: f.profit_positive,
            tracker: TrackerAction::CloseSettle,
        }
    } else {
        Transition {
            next: p,
            signal: signal_of(p) as i32,
            open_legs: 0,
            close_legs: 0,
            opened: false,
            closed: false,
            profitable: false,
            tracker: if p is Flat {
                TrackerAction::Idle
            } else {
                TrackerAction::Accumulate
            },
        }
    }
}

/// One step of the state machine, as a pure transition function.
pub fn step(position: Position, flags: StepFlags) -> (t: Transition)
    ensures
        t == spec_step(position, flags),
{
    if position == Position::Flat && flags.relation_ok && flags.long_open {
        Transition {
            next: Position::Long,
            signal: 1,
            open_legs: 2,
            close_legs: 0,
            opened: true,
            closed: false,
            profitable: false,
            tracker: TrackerAction::OpenReset,
        }
    } else if position == Position::Flat && flags.relation_ok && flags.short_open {
        Transition {
            next: Position::Short,
            signal: -1,
            open_legs: 2,
            close_legs: 0,
            opened: true,
            closed: false,
            profitable: false,
            tracker: TrackerAction::OpenReset,
        }
    } else if (position == Position::Long && (flags.long_close || flags.stop_hit)) || (
    position == Position::Short && (flags.short_close || flags.stop_hit)) {
        Transition {
            next: Position::Flat,
            signal: 0,
            open_legs: 0,
            close_legs: 2,
            opened: false,
            closed: true,
            profitable: flags.profit_positive,
            tracker: TrackerAction::CloseSettle,
        }
    } else {
        let signal: i32 = match position {
            Position::Flat => 0,
            Position::Long => 1,
            Position::Short => -1,
        };
        let tracker = if position == Position::Flat {
            TrackerAction::Idle
        } else {
            TrackerAction::Accumulate
        };
        Transition {
            next: position,
            signal,
            open_legs: 0,
            close_legs: 0,
            opened: false,
            closed: false,
            profitable: false,
            tracker,
        }
    }
}

/// The state and records of a whole run over a flag sequence: the final
/// position, the raw signal sequence, the entry- and exit-side cost legs,
/// and the (opened, closed, closed-in-profit) counts. Bar 0 is the neutral
/// bar; bar `i + 1` applies `flags[i]`.
pub open spec fn spec_run(flags: Seq<StepFlags>) -> (
    Position,
    Seq<i32>,
    Seq<u32>,
    Seq<u32>,
    (int, int, int),
)
    decreases flags.len(),
{
    if flags.len() == 0 {
        (Position::Flat, seq![0i32], seq![0u32], seq![0u32], (0int, 0int, 0int))
    } else {
        let prev = spec_run(flags.drop_last());
        let t = spec_step(prev.0, flags.last());
        (
            t.next,
            prev.1.push(t.signal),
            prev.2.push(t.open_legs),
            prev.3.push(t.close_legs),
            (
                prev.4.0 + if t.opened {
                    1int
                } else {
                    0int
                },
                prev.4.1 + if t.closed {
                    1int
                } else {
                    0int
                },
                prev.4.2 + if t.closed && t.profitable {
                    1int
                } else {
                    0int
                },
            ),
        )
    }
}

/// Law: over any flag sequence, no more trades close in profit than close
/// at all — so a win rate computed from the counters lies in the unit
/// interval whenever anything closed.
pub proof fn lemma_closed_profit_bounded(flags: Seq<StepFlags>)
    ensures
        0 <= spec_run(flags).4.2 <= spec_run(flags).4.1,
    decreases flags.len(),
{
    if flags.len() > 0 {
        lemma_closed_profit_bounded(flags.drop_last());
    }
}

/// Law: a hit stop loss closes an open position on that very step, with a
/// neutral signal, whatever the indicator's own close triggers say.
pub proof fn lemma_stop_loss_closes(p: Position, f: StepFlags)
    requires
        p is Long || p is Short,
        f.stop_hit,
    ensures
        spec_step(p, f).next is Flat,
        spec_step(p, f).closed,
        spec_step(p, f).signal == 0,
{
}

/// The signal, cost and counter records of a backtest run, before the
/// lookahead-bias shift.
pub struct SignalEngine {
    position: Position,
    signals: Vec<i32>,
    open_legs: Vec<u32>,
    close_legs: Vec<u32>,
    counters: TradeCounters,
}

/// The finished output of the engine: the shifted signal sequence, the
/// combined per-bar cost legs, and the trade counters.
pub struct SignalPlan {
    pub signals: Vec<i32>,
    pub cost_legs: Vec<u32>,
    pub counters: TradeCounters,
}

impl SignalEngine {
    /// The position after the bars recorded so far.
    pub closed spec fn position(&self) -> Position {
        self.position
    }

    /// The raw (unshifted) per-bar signals recorded so far.
    pub closed spec fn signals(&self) -> Seq<i32> {
        self.signals@
    }

    /// The per-bar entry-side cost legs recorded so far.
    pub closed spec fn open_legs(&self) -> Seq<u32> {
        self.open_legs@
    }

    /// The per-bar exit-side cost legs recorded so far.
    pub closed spec fn close_legs(&self) -> Seq<u32> {
        self.close_legs@
    }

    /// The trade counters so far.
    pub closed spec fn counters(&self) -> TradeCounters {
        self.counters
    }

    /// Well-formedness: the three records stay aligned, the first bar is
    /// neutral, the recorded signal matches the position, cost legs are at
    /// most two, and no more trades closed in profit than closed at all.
    pub open spec fn wf(&self) -> bool {
        &&& 1 <= self.signals().len()
        &&& self.open_legs().len() == self.signals().len()
        &&& self.close_legs().len() == self.signals().len()
        &&& self.signals()[0] == 0
        &&& self.signals().last() == signal_of(self.position()) as i32
        &&& forall|i: int|
            0 <= i < self.open_legs().len() ==> #[trigger] self.open_legs()[i] <= 2
        &&& forall|i: int|
            0 <= i < self.close_legs().len() ==> #[trigger] self.close_legs()[i] <= 2
        &&& self.counters().closed_profit <= self.counters().closed
        &&& self.counters().opened as int <= self.signals().len() - 1
        &&& self.counters().closed as int <= self.signals().len() - 1
    }

    /// A fresh engine: flat, with the neutral bar 0 already recorded.
    pub fn new() -> (s: Self)
        ensures
            s.wf(),
            s.position() is Flat,
            s.signals() =~= seq![0i32],
            s.open_legs() =~= seq![0u32],
            s.close_legs() =~= seq![0u32],
            s.counters() == (TradeCounters { opened: 0, closed: 0, closed_profit: 0 }),
    {
        let mut signals: Vec<i32> = Vec::new();
        signals.push(0);
        let mut open_legs: Vec<u32> = Vec::new();
        open_legs.push(0);
        let mut close_legs: Vec<u32> = Vec::new();
        close_legs.push(0);
        SignalEngine {
            position: Position::Flat,
            signals,
            open_legs,
            close_legs,
            counters: TradeCounters { opened: 0, closed: 0, closed_profit: 0 },
        }
    }

    /// Advances the machine by one bar and records its decisions.
    pub fn step(&mut self, flags: StepFlags) -> (t: Transition)
        requires
            old(self).wf(),
            old(self).signals().len() < u32::MAX as int,
        ensures
            final(self).wf(),
            t == spec_step(old(self).position(), flags),
            final(self).position() == t.next,
            final(self).signals() == old(self).signals().push(t.signal),
            final(self).open_legs() == old(self).open_legs().push(t.open_legs),
            final(self).close_legs() == old(self).close_legs().push(t.close_legs),
            final(self).counters().opened == old(self).counters().opened + (
            if t.opened {
                1int
            } else {
                0int
            }),
            final(self).counters().closed == old(self).counters().closed + (
            if t.closed {
                1int
            } else {
                0int
            }),
            final(self).counters().closed_profit == old(self).counters().closed_profit + (
            if t.closed && t.profitable {
                1int
            } else {
                0int
            }),
    {
        let t = step(self.position, flags);
        self.position = t.next;
        self.signals.push(t.signal);
        self.open_legs.push(t.open_legs);
        self.close_legs.push(t.close_legs);
        if t.opened {
            self.counters.opened = self.counters.opened + 1;
        }
        if t.closed {
            self.counters.closed = self.counters.closed + 1;
            if t.profitable {
                self.counters.closed_profit = self.counters.closed_profit + 1;
            }
        }
        t
    }

    /// Ends the run: shifts the signal and entry-cost sequences forward by
    /// one bar (drop the last element, prepend a neutral one), so that the
    /// signal applied to a bar was decided strictly before it, and combines
    /// entry- and exit-side cost legs by addition.
    ///
    /// The first element of the shifted signal sequence is always zero, and
    /// no more trades closed in profit than closed at all.
    pub fn finish(self) -> (plan: SignalPlan)
        requires
            self.wf(),
        ensures
            plan.signals@.len() == self.signals().len(),
            plan.cost_legs@.len() == self.signals().len(),
            plan.signals@[0] == 0,
            forall|i: int|
                1 <= i < plan.signals@.len() ==> #[trigger] plan.signals@[i] == self.signals()[i
                    - 1],
            plan.cost_legs@[0] == self.close_legs()[0],
            forall|i: int|
                1 <= i < plan.cost_legs@.len() ==> #[trigger] plan.cost_legs@[i] == self.open_legs()[
                i - 1] + self.close_legs()[i],
            plan.counters == self.counters(),
            plan.counters.closed_profit <= plan.counters.closed,
    {
        let n = self.signals.len();
        let mut signals: Vec<i32> = Vec::new();
        let mut cost_legs: Vec<u32> = Vec::new();
        signals.push(0);
        cost_legs.push(self.close_legs[0]);
        let mut i: usize = 1;
        while i < n
            invariant
                self.wf(),
                n == self.signals().len(),
                1 <= i <= n,
                signals@.len() == i,
                cost_legs@.len() == i,
                signals@[0] == 0,
                forall|j: int|
                    1 <= j < i ==> #[trigger] signals@[j] == self.signals()[j - 1],
                cost_legs@[0] == self.close_legs()[0],
                forall|j: int|
                    1 <= j < i ==> #[trigger] cost_legs@[j] == self.open_legs()[j - 1]
                        + self.close_legs()[j],
            decreases n - i,
        {
            signals.push(self.signals[i - 1]);
            cost_legs.push(self.open_legs[i - 1] + self.close_legs[i]);
            i += 1;
        }
        SignalPlan { signals, cost_legs, counters: self.counters }
    }

    /// Runs the whole machine over a precomputed flag sequence and ends
    /// with the lookahead-bias shift. The result is a function of the
    /// flags alone: identical flags give identical records.
    pub fn run(flags: &Vec<StepFlags>) -> (plan: SignalPlan)
        requires
            flags@.len() < u32::MAX as int,
        ensures
            ({
                let m = spec_run(flags@);
                &&& plan.signals@.len() == m.1.len()
                &&& plan.cost_legs@.len() == m.1.len()
                &&& plan.signals@[0] == 0
                &&& forall|i: int|
                    1 <= i < plan.signals@.len() ==> #[trigger] plan.signals@[i] == m.1[i - 1]
                &&& plan.cost_legs@[0] == m.3[0]
                &&& forall|i: int|
                    1 <= i < plan.cost_legs@.len() ==> #[trigger] plan.cost_legs@[i] == m.2[i - 1]
                        + m.3[i]
                &&& plan.counters.opened as int == m.4.0
                &&& plan.counters.closed as int == m.4.1
                &&& plan.counters.closed_profit as int == m.4.2
            }),
    {
        let mut engine = SignalEngine::new();
        let n = flags.len();
        let mut i: usize = 0;
        proof {
            assert(flags@.subrange(0, 0) =~= Seq::<StepFlags>::empty());
        }
        while i < n
            invariant
                i <= n,
                n == flags@.len(),
                n < u32::MAX as int,
                engine.wf(),
                engine.position() == spec_run(flags@.subrange(0, i as int)).0,
                engine.signals() == spec_run(flags@.subrange(0, i as int)).1,
                engine.open_legs() == spec_run(flags@.subrange(0, i as int)).2,
                engine.close_legs() == spec_run(flags@.subrange(0, i as int)).3,
                engine.counters().opened as int == spec_run(flags@.subrange(0, i as int)).4.0,
                engine.counters().closed as int == spec_run(flags@.subrange(0, i as int)).4.1,
                engine.counters().closed_profit as int == spec_run(
                    flags@.subrange(0, i as int),
                ).4.2,
                engine.signals().len() == i + 1,
            decreases n - i,
        {
            let ghost prefix = flags@.subrange(0, i as int);
            engine.step(flags[i]);
            proof {
                let extended = flags@.subrange(0, i + 1);
                assert(extended =~= prefix.push(flags@[i as int]));
                assert(extended.drop_last() =~= prefix);
            }
            i += 1;
        }
        proof {
            assert(flags@.subrange(0, n as int) =~= flags@);
        }
        engine.finish()
    }
}

} // verus!
