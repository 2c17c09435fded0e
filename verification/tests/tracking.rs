use progress_logger::{Fix2, ProgressLogger};

const RESET: &str = "\u{1b}[0m";
const UNDER: &str = "\u{1b}[4m";

#[test]
fn no_emission_before_interval() {
    // One second between reports: a hundred updates inside one millisecond
    // of tracker time must not emit anything.
    let mut pl = ProgressLogger::builder().with_frequency(1000).start();
    for _ in 0..100 {
        assert!(pl.update_at(1, 1, 0, 0).is_none());
    }
    assert!(pl.throughput().is_none());
    let line = pl.stop_at(1000);
    assert_eq!(
        line,
        format!("Done in 1.00s. {RESET}100 updates ({RESET}100.00 updates/s)")
    );
}

#[test]
fn emission_after_interval_with_target() {
    let mut pl = ProgressLogger::builder()
        .with_frequency(1000)
        .with_expected_updates(10)
        .start();
    assert!(pl.update_at(5, 500, 7, 8).is_none());
    let line = pl.update_at(5, 2000, 7, 8).expect("enough time passed");
    assert_eq!(
        line,
        format!(
            "[mem: {RESET}7 kB, swap: {RESET}8 kB] 2.00s {RESET}10 updates, \
             {RESET}0.00 s left ({RESET}5.00 updates/s)"
        )
    );
    assert_eq!(pl.throughput(), Some(Fix2 { hundredths: 500 }));
    assert_eq!(pl.time_to_completion(), Some(Fix2 { hundredths: 0 }));
}

#[test]
fn emission_without_target_has_no_eta_field() {
    let mut pl = ProgressLogger::builder()
        .with_frequency(1000)
        .with_items_name("points")
        .start();
    let line = pl.update_at(4, 2000, 1, 2).expect("enough time passed");
    assert_eq!(
        line,
        format!("[mem: {RESET}1 kB, swap: {RESET}2 kB] 2.00s {RESET}4 points ({RESET}2.00 points/s)")
    );
    assert!(pl.time_to_completion().is_none());
}

#[test]
fn light_path_emits_only_at_the_millionth() {
    let mut pl = ProgressLogger::builder().with_frequency(1).start();
    let mut emitted: u64 = 0;
    let mut at: u64 = 0;
    for i in 1..=1_000_001u64 {
        if pl.update_light_at(1, 10_000, 0, 0).is_some() {
            emitted += 1;
            at = i;
        }
    }
    assert_eq!(emitted, 1);
    assert_eq!(at, 1_000_000);
}

#[test]
fn light_path_skips_the_clock_off_multiples() {
    let mut pl = ProgressLogger::builder().with_frequency(0).start();
    // Enough time passed, but the count is not a multiple of a million.
    assert!(pl.update_light_at(3, 50_000, 0, 0).is_none());
    assert!(pl.update_light(2).is_none());
}

#[test]
fn stop_emits_once_even_at_count_zero() {
    let pl = ProgressLogger::builder().start();
    let line = pl.stop_at(500);
    assert_eq!(line, format!("Done in 0.50s. {RESET}0 updates ({RESET}0.00 updates/s)"));
}

#[test]
fn stop_at_zero_elapsed_is_defined() {
    // A zero elapsed time is clamped to one millisecond, so the throughput
    // stays finite: 3 items in (at least) 1 ms.
    let mut pl = ProgressLogger::builder().start();
    assert!(pl.update_at(3, 0, 0, 0).is_none());
    let line = pl.stop_at(0);
    assert_eq!(
        line,
        format!("Done in 0.00s. {RESET}3 updates ({UNDER}3{RESET}000.00 updates/s)")
    );
}

#[test]
fn end_to_end_with_target() {
    let mut pl = ProgressLogger::builder().with_expected_updates(1000).start();
    assert!(pl.update(1000).is_none());
    assert!(pl.throughput().is_none());
    assert!(pl.time_to_completion().is_none());
    let line = pl.stop();
    assert!(line.starts_with("Done in "));
    assert!(line.contains(&format!("{UNDER}1{RESET}000 updates")));
}

#[test]
fn no_target_means_no_eta_ever() {
    let mut pl = ProgressLogger::builder().with_frequency(100).start();
    assert!(pl.time_to_completion().is_none());
    assert!(pl.update_at(5, 1000, 0, 0).is_some());
    assert!(pl.time_to_completion().is_none());
    pl.update(1);
    assert!(pl.time_to_completion().is_none());
}

#[test]
fn count_is_the_sum_over_both_paths() {
    let mut pl = ProgressLogger::builder().with_frequency(u64::MAX).start();
    assert!(pl.update(2).is_none());
    assert!(pl.update_light(3).is_none());
    assert!(pl.up().is_none());
    let line = pl.stop_at(1000);
    assert_eq!(line, format!("Done in 1.00s. {RESET}6 updates ({RESET}6.00 updates/s)"));
}

#[test]
fn k_ups_match_one_update_of_k() {
    let mut a = ProgressLogger::builder().with_frequency(u64::MAX).start();
    let mut b = ProgressLogger::builder().with_frequency(u64::MAX).start();
    for _ in 0..5 {
        assert!(a.up().is_none());
    }
    assert!(b.update(5).is_none());
    assert_eq!(a.stop_at(2000), b.stop_at(2000));
}

#[test]
fn eta_is_unbounded_without_progress() {
    let mut pl = ProgressLogger::builder()
        .with_frequency(100)
        .with_expected_updates(10)
        .start();
    assert!(pl.update_at(0, 1000, 0, 0).is_some());
    assert_eq!(pl.time_to_completion(), Some(Fix2 { hundredths: u64::MAX }));
}

#[test]
fn eta_clamps_to_zero_past_the_target() {
    let mut pl = ProgressLogger::builder()
        .with_frequency(100)
        .with_expected_updates(5)
        .start();
    assert!(pl.update_at(8, 2000, 0, 0).is_some());
    assert_eq!(pl.time_to_completion(), Some(Fix2 { hundredths: 0 }));
}
