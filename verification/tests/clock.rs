use lockstep::clock::DeltaAccumulator;
use lockstep::clock::DeltaCycle;

#[test]
fn fresh_accumulator_is_empty() {
    let acc = DeltaAccumulator::new(16_000_000, std::time::Instant::now());
    assert_eq!(acc.step(), 16_000_000);
    assert_eq!(acc.accumulated(), 0);
    assert_eq!(acc.delta_cycle().delta_time(), 0);
}

#[test]
fn default_accumulator_has_no_step() {
    let acc = DeltaAccumulator::default();
    assert_eq!(acc.step(), 0);
    assert_eq!(acc.accumulated(), 0);
}

#[test]
fn fifty_millis_at_sixteen_millis_step_gives_three_ticks() {
    let mut acc = DeltaAccumulator::new(16_000_000, std::time::Instant::now());
    acc.accum_elapsed(50_000_000);
    assert_eq!(acc.accumulated(), 50_000_000);
    assert!(acc.overstep());
    assert!(acc.overstep());
    assert!(acc.overstep());
    assert!(!acc.overstep());
    assert_eq!(acc.accumulated(), 2_000_000);
}

#[test]
fn overstep_without_a_full_step_declines() {
    let mut acc = DeltaAccumulator::new(16_000_000, std::time::Instant::now());
    acc.accum_elapsed(15_999_999);
    assert!(!acc.overstep());
    assert_eq!(acc.accumulated(), 15_999_999);
}

#[test]
fn accumulation_is_additive() {
    let mut acc = DeltaAccumulator::new(10, std::time::Instant::now());
    acc.accum_elapsed(3);
    acc.accum_elapsed(4);
    assert_eq!(acc.accumulated(), 7);
    assert!(!acc.overstep());
    acc.accum_elapsed(3);
    assert!(acc.overstep());
    assert_eq!(acc.accumulated(), 0);
}

#[test]
fn accumulation_saturates_instead_of_overflowing() {
    let mut acc = DeltaAccumulator::new(16, std::time::Instant::now());
    acc.accum_elapsed(u64::MAX);
    acc.accum_elapsed(u64::MAX);
    assert_eq!(acc.accumulated(), u64::MAX);
}

#[test]
fn time_ahead_is_the_slack_before_the_next_tick() {
    let mut acc = DeltaAccumulator::new(16_000_000, std::time::Instant::now());
    acc.accum_elapsed(2_000_000);
    assert_eq!(acc.time_ahead(), 14_000_000);
}

#[test]
fn time_ahead_saturates_at_zero() {
    let mut acc = DeltaAccumulator::new(16_000_000, std::time::Instant::now());
    acc.accum_elapsed(20_000_000);
    assert_eq!(acc.time_ahead(), 0);
}

#[test]
fn sleep_budget_is_three_quarters_of_the_slack() {
    let mut acc = DeltaAccumulator::new(16_000_000, std::time::Instant::now());
    acc.accum_elapsed(2_000_000);
    assert_eq!(acc.sleep_budget(), 10_500_000);
}

#[test]
fn set_step_changes_the_tick_duration() {
    let mut acc = DeltaAccumulator::new(16_000_000, std::time::Instant::now());
    acc.accum_elapsed(9_000_000);
    assert!(!acc.overstep());
    acc.set_step(8_000_000);
    assert_eq!(acc.step(), 8_000_000);
    assert!(acc.overstep());
    assert_eq!(acc.accumulated(), 1_000_000);
}

#[test]
fn cycle_sync_measures_elapsed_time() {
    let mut cycle = DeltaCycle::new(std::time::Instant::now());
    assert_eq!(cycle.delta_time(), 0);
    cycle.sync();
    let first = cycle.delta_time();
    cycle.sync();
    // Each sync measures only the time since the previous sync; both spans
    // here are tiny.
    assert!(first < 1_000_000_000);
    assert!(cycle.delta_time() < 1_000_000_000);
}

#[test]
fn accum_reads_the_clock_forward() {
    let mut acc = DeltaAccumulator::new(1_000_000_000, std::time::Instant::now());
    let before = acc.accumulated();
    acc.accum();
    assert!(acc.accumulated() >= before);
}
