use atomic::Ordering;
use freq_governor::parse::{count_fields, parse_khz_list};
use freq_governor::schedule::{pool_workers, RunOutcome, Schedule, StepResult, TARGET_SEED_HZ};
use freq_governor::sort::sort_khz;
use freq_governor::digits::format_khz;
use freq_governor::TableError;

#[test]
fn construction_empty_list_fails() {
    assert_eq!(Schedule::new(b"", 5).err(), Some(TableError::Empty));
    assert_eq!(Schedule::new(b"  \n\t ", 5).err(), Some(TableError::Empty));
}

#[test]
fn construction_malformed_list_fails() {
    assert_eq!(Schedule::new(b"abc", 5).err(), Some(TableError::Malformed));
    assert_eq!(Schedule::new(b"800 12x0", 5).err(), Some(TableError::Malformed));
    assert_eq!(Schedule::new(b"-800", 5).err(), Some(TableError::Malformed));
    // A value whose hertz equivalent cannot be represented is rejected.
    assert_eq!(
        Schedule::new(b"9223372036854776", 5).err(),
        Some(TableError::Malformed)
    );
    assert_eq!(
        Schedule::new(b"99999999999999999999999", 5).err(),
        Some(TableError::Malformed)
    );
}

#[test]
fn construction_sorts_and_starts_at_top() {
    let (s, _t, cur) = Schedule::new(b"1600 800 2000 1200", 7).unwrap();
    assert_eq!(s.table, vec![800, 1200, 1600, 2000]);
    assert_eq!(s.pos, 3);
    assert_eq!(s.burst, 0);
    assert_eq!(s.burst_max, 7);
    // The current-frequency cell is seeded with the table maximum, in hertz.
    assert_eq!(cur.load(Ordering::Acquire), 2_000_000);
}

#[test]
fn construction_seeds_target_cell() {
    let (_s, target, _cur) = Schedule::new(b"800", 0).unwrap();
    assert_eq!(target.load(Ordering::Acquire), TARGET_SEED_HZ);
    assert_eq!(TARGET_SEED_HZ, 200_000_000);
}

#[test]
fn parse_keeps_order_and_values() {
    let v = parse_khz_list(b" 300\t100\n200 ").unwrap();
    assert_eq!(v, vec![300, 100, 200]);
    assert_eq!(parse_khz_list(b""), Some(vec![]));
    assert_eq!(parse_khz_list(b"9223372036854775"), Some(vec![9223372036854775]));
    assert_eq!(parse_khz_list(b"9223372036854776"), None);
    assert_eq!(parse_khz_list(b"1 2 ?"), None);
}

#[test]
fn count_fields_counts_tokens() {
    assert_eq!(count_fields(b"0 1 2 3"), 4);
    assert_eq!(count_fields(b""), 0);
    assert_eq!(count_fields(b"   "), 0);
    assert_eq!(count_fields(b"  7 \n"), 1);
    assert_eq!(count_fields(b"a bb  ccc"), 3);
}

#[test]
fn pool_workers_is_half_count_min_two() {
    assert_eq!(pool_workers(8), 4);
    assert_eq!(pool_workers(7), 3);
    assert_eq!(pool_workers(4), 2);
    assert_eq!(pool_workers(3), 2);
    assert_eq!(pool_workers(0), 2);
}

#[test]
fn sort_is_ascending_with_duplicates_kept() {
    assert_eq!(sort_khz(vec![2000, 800, 1600, 800]), vec![800, 800, 1600, 2000]);
    assert_eq!(sort_khz(vec![]), vec![]);
}

#[test]
fn format_khz_renders_decimal() {
    assert_eq!(format_khz(0), "0");
    assert_eq!(format_khz(7), "7");
    assert_eq!(format_khz(2000), "2000");
    assert_eq!(format_khz(1600), "1600");
    assert_eq!(format_khz(9223372036854775), "9223372036854775");
}

#[test]
fn negative_diff_is_a_no_op() {
    let (mut s, target, cur) = Schedule::new(b"800 1200 1600 2000", 5).unwrap();
    target.store(150, Ordering::Release);
    let before_cur = cur.load(Ordering::Acquire);
    let o = s.run(-1);
    assert_eq!(o, RunOutcome::Skipped);
    assert_eq!(s.pos, 3);
    assert_eq!(s.burst, 0);
    // Nothing was published either.
    assert_eq!(cur.load(Ordering::Acquire), before_cur);
}

#[test]
fn concrete_scenario_up_down_hold() {
    let (mut s, target, cur) = Schedule::new(b"800 1200 1600 2000", 5).unwrap();
    // 150 kHz-equivalent of headroom, in hertz.
    target.store(150_000, Ordering::Release);

    // target 150 > measured 100: step up, already at the top.
    let o = s.run(100_000);
    assert_eq!(
        o,
        RunOutcome::Stepped { published_khz: 2000, write_khz: Some(2000) }
    );
    assert_eq!(s.pos, 3);
    assert_eq!(s.burst, 1);
    assert_eq!(cur.load(Ordering::Acquire), 2_000_000);

    // target 150 < measured 300: step down one, burst collapses.
    let o = s.run(300_000);
    assert_eq!(
        o,
        RunOutcome::Stepped { published_khz: 2000, write_khz: Some(1600) }
    );
    assert_eq!(s.pos, 2);
    assert_eq!(s.burst, 0);

    // target 150 == measured 150: hold, no write.
    let o = s.run(150_000);
    assert_eq!(
        o,
        RunOutcome::Stepped { published_khz: 1600, write_khz: None }
    );
    assert_eq!(s.pos, 2);
    assert_eq!(s.burst, 0);
    assert_eq!(cur.load(Ordering::Acquire), 1_600_000);
}

#[test]
fn ramp_accelerates_and_burst_caps() {
    let (mut s, target, _cur) = Schedule::new(b"100 200 300 400 500 600 700 800", 2).unwrap();
    // Walk the cursor to the bottom: target 0 is below any positive measurement.
    target.store(0, Ordering::Release);
    for _ in 0..8 {
        s.run(1_000_000);
    }
    assert_eq!(s.pos, 0);
    assert_eq!(s.burst, 0);

    // Sustained upward pressure: advance by 1 + burst each call.
    target.store(5_000_000, Ordering::Release);
    let o = s.run(0);
    assert_eq!(o, RunOutcome::Stepped { published_khz: 100, write_khz: Some(200) });
    assert_eq!((s.pos, s.burst), (1, 1));
    let o = s.run(0);
    assert_eq!(o, RunOutcome::Stepped { published_khz: 200, write_khz: Some(400) });
    assert_eq!((s.pos, s.burst), (3, 2));
    let o = s.run(0);
    assert_eq!(o, RunOutcome::Stepped { published_khz: 400, write_khz: Some(700) });
    // burst holds at burst_max.
    assert_eq!((s.pos, s.burst), (6, 2));
    let o = s.run(0);
    assert_eq!(o, RunOutcome::Stepped { published_khz: 700, write_khz: Some(800) });
    assert_eq!((s.pos, s.burst), (7, 2));
}

#[test]
fn downward_step_collapses_burst() {
    let (mut s, target, _cur) = Schedule::new(b"100 200 300 400 500", 9).unwrap();
    target.store(0, Ordering::Release);
    for _ in 0..5 {
        s.run(1_000_000);
    }
    target.store(5_000_000, Ordering::Release);
    s.run(0);
    s.run(0);
    assert_eq!(s.burst, 2);
    // One downward decision resets the burst immediately.
    target.store(0, Ordering::Release);
    let o = s.run(1_000_000);
    assert!(matches!(o, RunOutcome::Stepped { write_khz: Some(_), .. }));
    assert_eq!(s.burst, 0);
}

#[test]
fn hold_resets_burst() {
    let (mut s, target, _cur) = Schedule::new(b"100 200 300 400 500", 9).unwrap();
    target.store(5_000_000, Ordering::Release);
    // cursor at the top (500 kHz -> 500_000 Hz); clamp brings target to 500_000.
    s.run(0);
    assert_eq!(s.burst, 1);
    let o = s.run(500_000);
    assert_eq!(o, RunOutcome::Stepped { published_khz: 500, write_khz: None });
    assert_eq!(s.burst, 0);
    assert_eq!(s.pos, 4);
}

#[test]
fn negative_target_is_a_fault() {
    let (mut s, target, _cur) = Schedule::new(b"800 1200", 5).unwrap();
    target.store(-5, Ordering::Release);
    let o = s.run(0);
    assert_eq!(o, RunOutcome::Fault { published_khz: 1200 });
    assert_eq!(s.pos, 1);
    assert_eq!(s.burst, 0);
}

#[test]
fn step_directly_clamps_against_current() {
    let (mut s, _t, _c) = Schedule::new(b"800 1200 1600 2000", 5).unwrap();
    // A huge target is clamped to the current frequency (2_000_000 Hz), which
    // still exceeds the measurement: upward decision.
    let r = s.step(100, i64::MAX);
    assert_eq!(r, StepResult::Wrote(2000));
    // Clamped target (2_000_000) below the measurement: downward decision.
    let r = s.step(3_000_000, i64::MAX);
    assert_eq!(r, StepResult::Wrote(1600));
    assert_eq!(s.pos, 2);
}

#[test]
fn cursor_stays_in_bounds_under_any_sequence() {
    let (mut s, target, _cur) = Schedule::new(b"100 200 300 400", 3).unwrap();
    let targets: [i64; 5] = [0, 5_000_000, 150_000, -1, 400_000];
    let diffs: [i64; 6] = [-5, 0, 100_000, 350_000, 1_000_000, 7];
    for i in 0..60 {
        target.store(targets[i % 5], Ordering::Release);
        s.run(diffs[i % 6]);
        assert!(s.pos < 4);
        assert!(s.burst <= 3);
    }
}

#[test]
fn reset_requests_table_maximum() {
    let (mut s, target, _cur) = Schedule::new(b"800 1200 1600 2000", 5).unwrap();
    assert_eq!(s.reset(), 2000);
    // Walk down, then reset still asks for the maximum.
    target.store(0, Ordering::Release);
    for _ in 0..4 {
        s.run(1_000_000);
    }
    assert_eq!(s.pos, 0);
    assert_eq!(s.reset(), 2000);
    assert_eq!(format_khz(s.reset()), "2000");
}

#[test]
fn duplicate_frequencies_are_tolerated() {
    let (mut s, target, _cur) = Schedule::new(b"800 800 1200", 5).unwrap();
    assert_eq!(s.table, vec![800, 800, 1200]);
    target.store(0, Ordering::Release);
    let o = s.run(1_000_000);
    assert_eq!(o, RunOutcome::Stepped { published_khz: 1200, write_khz: Some(800) });
    let o = s.run(1_000_000);
    // Stepping across the duplicate re-requests the same value: a no-op write.
    assert_eq!(o, RunOutcome::Stepped { published_khz: 800, write_khz: Some(800) });
    assert_eq!(s.pos, 0);
}
