use pairtrade::backtest::models::{
    LongSeries, Position, Relation, SignalEngine, SignalPlan, StepFlags, TradeCounters,
    TrackerAction, Transition, TriggerIndicator, step,
};

fn flags_default() -> StepFlags {
    StepFlags {
        relation_ok: true,
        long_open: false,
        short_open: false,
        long_close: false,
        short_close: false,
        stop_hit: false,
        profit_positive: false,
    }
}

/// Drives the engine the way a numeric backtest does: the float
/// comparisons happen here, the decisions inside the verified machine.
fn drive(
    series_0: &[f64],
    series_1: &[f64],
    indicator: &[f64],
    long_thresh: f64,
    long_close_thresh: f64,
    short_thresh: f64,
    short_close_thresh: f64,
    cost_per_leg: f64,
    stop_loss: f64,
) -> SignalPlan {
    let mut engine = SignalEngine::new();
    let mut running_pnl: f64 = 0.0;
    let s0_mul: f64 = 1.0;
    for i in 1..indicator.len() {
        let r0 = (series_0[i] / series_0[i - 1] - 1.0) * s0_mul;
        let r1 = (series_1[i] / series_1[i - 1] - 1.0) * -s0_mul;
        let ind = indicator[i];
        let flags = StepFlags {
            relation_ok: true,
            long_open: ind <= long_thresh,
            short_open: ind >= short_thresh,
            long_close: ind >= long_close_thresh,
            short_close: ind <= short_close_thresh,
            stop_hit: stop_loss != 0.0 && running_pnl <= stop_loss,
            profit_positive: running_pnl + (-cost_per_leg * 2.0) > 0.0,
        };
        let t = engine.step(flags);
        match t.tracker {
            TrackerAction::OpenReset => running_pnl = -cost_per_leg * 2.0,
            TrackerAction::CloseSettle => running_pnl = 0.0,
            TrackerAction::Accumulate => running_pnl += r0 + r1,
            TrackerAction::Idle => running_pnl = 0.0,
        }
    }
    engine.finish()
}

#[test]
fn step_long_entry_wins_over_short() {
    let mut f = flags_default();
    f.long_open = true;
    f.short_open = true;
    let t = step(Position::Flat, f);
    assert_eq!(t.next, Position::Long);
    assert_eq!(t.signal, 1);
    assert_eq!(t.open_legs, 2);
    assert_eq!(t.close_legs, 0);
    assert!(t.opened);
    assert!(!t.closed);
    assert_eq!(t.tracker, TrackerAction::OpenReset);
}

#[test]
fn step_entry_needs_relation_gate() {
    let mut f = flags_default();
    f.long_open = true;
    f.relation_ok = false;
    let t = step(Position::Flat, f);
    assert_eq!(t.next, Position::Flat);
    assert_eq!(t.signal, 0);
    assert!(!t.opened);
    assert_eq!(t.tracker, TrackerAction::Idle);
}

#[test]
fn step_short_entry() {
    let mut f = flags_default();
    f.short_open = true;
    let t = step(Position::Flat, f);
    assert_eq!(t.next, Position::Short);
    assert_eq!(t.signal, -1);
    assert!(t.opened);
}

#[test]
fn step_stop_loss_forces_close_without_indicator() {
    let mut f = flags_default();
    f.stop_hit = true;
    let t = step(Position::Long, f);
    assert_eq!(t.next, Position::Flat);
    assert_eq!(t.signal, 0);
    assert_eq!(t.close_legs, 2);
    assert!(t.closed);
    assert_eq!(t.tracker, TrackerAction::CloseSettle);

    let t = step(Position::Short, f);
    assert!(t.closed);
}

#[test]
fn step_close_matches_side() {
    let mut f = flags_default();
    f.long_close = true;
    let t = step(Position::Short, f);
    assert!(!t.closed);
    assert_eq!(t.next, Position::Short);
    assert_eq!(t.signal, -1);
    assert_eq!(t.tracker, TrackerAction::Accumulate);

    let mut f = flags_default();
    f.short_close = true;
    let t = step(Position::Short, f);
    assert!(t.closed);
}

#[test]
fn step_profitable_close_is_counted() {
    let mut f = flags_default();
    f.long_close = true;
    f.profit_positive = true;
    let t: Transition = step(Position::Long, f);
    assert!(t.closed);
    assert!(t.profitable);
}

#[test]
fn shifted_signals_start_neutral() {
    // The lookahead-bias shift always leaves a neutral first signal.
    let mut flags = Vec::new();
    for i in 0..30 {
        let mut f = flags_default();
        f.long_open = i % 3 == 0;
        f.long_close = i % 5 == 0;
        flags.push(f);
    }
    let plan = SignalEngine::run(&flags);
    assert_eq!(plan.signals[0], 0);
    assert_eq!(plan.signals.len(), 31);
    assert_eq!(plan.cost_legs.len(), 31);
}

#[test]
fn engine_run_is_deterministic() {
    let mut flags = Vec::new();
    for i in 0..50 {
        let mut f = flags_default();
        f.long_open = i % 7 == 0;
        f.short_open = i % 11 == 0;
        f.long_close = i % 5 == 1;
        f.short_close = i % 13 == 2;
        f.stop_hit = i % 17 == 3;
        f.profit_positive = i % 2 == 0;
        flags.push(f);
    }
    let a = SignalEngine::run(&flags);
    let b = SignalEngine::run(&flags);
    assert_eq!(a.signals, b.signals);
    assert_eq!(a.cost_legs, b.cost_legs);
    assert_eq!(a.counters, b.counters);
}

#[test]
fn one_long_round_trip() {
    // The indicator dips to -2.0 at bar 10 (below the long-open threshold
    // of -1.5) and returns to 0.0 at bar 20 (the long-close threshold):
    // exactly one entry and one exit.
    let n = 25;
    let mut indicator = vec![0.0f64; n];
    indicator[10] = -2.0;
    for i in 11..20 {
        indicator[i] = -0.5;
    }
    let series_0 = vec![100.0f64; n];
    let series_1 = vec![100.0f64; n];
    let plan = drive(&series_0, &series_1, &indicator, -1.5, 0.0, 1.5, 0.0, 0.0, 0.0);
    assert_eq!(plan.counters.opened, 1);
    assert_eq!(plan.counters.closed, 1);
    // Raw signals are shifted by one: the long shows from bar 11 on.
    assert_eq!(plan.signals[0], 0);
    assert_eq!(plan.signals[10], 0);
    assert_eq!(plan.signals[11], 1);
    assert_eq!(plan.signals[20], 1);
    assert_eq!(plan.signals[21], 0);
}

#[test]
fn stop_loss_closes_on_next_step() {
    // A running loss at or below the stop of -0.01 forces the close on the
    // following bar although the indicator never reaches its close
    // threshold.
    let series_0 = vec![100.0, 100.0, 99.0, 98.0, 97.0, 97.0];
    let series_1 = vec![100.0f64; 6];
    let indicator = vec![9.0, -2.0, -2.0, -2.0, 0.5, 0.5];
    let plan = drive(&series_0, &series_1, &indicator, -1.5, 9.9, 99.0, -99.0, 0.0, -0.01);
    assert_eq!(plan.counters.opened, 1);
    assert_eq!(plan.counters.closed, 1);
    assert_eq!(plan.counters.closed_profit, 0);
    // Raw: entry at bar 1, loss accumulates at bar 2, stop closes bar 3.
    // Shifted: [0, 0, 1, 1, 0, 0].
    assert_eq!(plan.signals, vec![0, 0, 1, 1, 0, 0]);
}

#[test]
fn win_rate_stays_in_unit_interval() {
    // A profitable long: prices rise while the position is open.
    let series_0 = vec![100.0, 100.0, 110.0, 120.0, 130.0, 130.0];
    let series_1 = vec![100.0f64; 6];
    let indicator = vec![0.0, -2.0, -0.5, -0.5, 1.0, 1.0];
    let plan = drive(&series_0, &series_1, &indicator, -1.5, 0.0, 99.0, -99.0, 0.0, 0.0);
    assert_eq!(plan.counters.opened, 1);
    assert_eq!(plan.counters.closed, 1);
    assert_eq!(plan.counters.closed_profit, 1);
    let counters: TradeCounters = plan.counters;
    assert!(counters.closed > 0);
    let win_rate = counters.closed_profit as f64 / counters.closed as f64;
    assert!((0.0..=1.0).contains(&win_rate));
    assert_eq!(win_rate, 1.0);
}

#[test]
fn costs_are_charged_on_entry_and_exit_bars() {
    let n = 25;
    let mut indicator = vec![0.0f64; n];
    indicator[10] = -2.0;
    for i in 11..20 {
        indicator[i] = -0.5;
    }
    let series_0 = vec![100.0f64; n];
    let series_1 = vec![100.0f64; n];
    let plan = drive(&series_0, &series_1, &indicator, -1.5, 0.0, 1.5, 0.0, 0.0005, 0.0);
    // Entry cost legs are shifted with the signal; exit legs are not.
    assert_eq!(plan.cost_legs[11], 2);
    assert_eq!(plan.cost_legs[20], 2);
    let total: u32 = plan.cost_legs.iter().sum();
    assert_eq!(total, 4);
}

#[test]
fn category_enums_are_distinct() {
    assert_ne!(LongSeries::Series0, LongSeries::Series1);
    assert_ne!(TriggerIndicator::Zscore, TriggerIndicator::Spread);
    assert_ne!(Relation::Coint, Relation::Ignore);
    assert_eq!(Relation::Corr.clone(), Relation::Corr);
}
