use ratex::bench::{
    calibration_step, get_arg, timestamp_label, BatchTotals, Calibration, PerCall,
    MAX_CALIBRATION_BATCH,
};

#[test]
fn calibration_stops_when_slow_enough() {
    assert_eq!(calibration_step(1, 5, 1), Calibration::Done(1));
    assert_eq!(calibration_step(40, 1, 1), Calibration::Done(40));
}

#[test]
fn calibration_grows_tenfold_when_unmeasurable() {
    assert_eq!(calibration_step(1, 0, 1), Calibration::Retry(10));
    assert_eq!(calibration_step(10_000, 0, 1), Calibration::Retry(100_000));
    assert_eq!(calibration_step(100_000, 0, 1), Calibration::Done(1_000_000));
}

#[test]
fn calibration_doubles_when_measurable() {
    assert_eq!(calibration_step(8, 2, 5), Calibration::Retry(16));
    assert_eq!(calibration_step(60_000, 3, 5), Calibration::Done(120_000));
    assert_eq!(calibration_step(50_000, 3, 5), Calibration::Retry(100_000));
}

#[test]
fn calibration_run_terminates() {
    let mut bs = 1usize;
    let mut rounds = 0;
    loop {
        rounds += 1;
        match calibration_step(bs, 0, 10) {
            Calibration::Done(n) => {
                assert_eq!(n, 1_000_000);
                break;
            }
            Calibration::Retry(n) => {
                assert!(n > bs && n <= MAX_CALIBRATION_BATCH);
                bs = n;
            }
        }
    }
    assert_eq!(rounds, 6);
}

#[test]
fn batch_totals_average_per_call() {
    let mut t = BatchTotals::new();
    t.record_run(10, 20, 30);
    t.record_parse_failure(5);
    t.record_run(1, 2, 3);
    assert_eq!(t, BatchTotals { parse_ns: 16, layout_ns: 22, to_display_ns: 33 });
    assert_eq!(
        t.per_call(100, 3),
        PerCall { total_ns: 33, parse_ns: 5, layout_ns: 7, to_display_ns: 11 }
    );
}

fn args(v: &[&str]) -> Vec<String> {
    v.iter().map(|s| s.to_string()).collect()
}

#[test]
fn get_arg_finds_value_after_flag() {
    let a = args(&["bench", "--input", "f.json", "--samples", "7"]);
    assert_eq!(get_arg(&a, "--input"), Some("f.json".to_string()));
    assert_eq!(get_arg(&a, "--samples"), Some("7".to_string()));
    assert_eq!(get_arg(&a, "--warmup"), None);
}

#[test]
fn get_arg_uses_first_occurrence_and_needs_a_value() {
    let a = args(&["--x", "1", "--x", "2"]);
    assert_eq!(get_arg(&a, "--x"), Some("1".to_string()));
    let b = args(&["run", "--output"]);
    assert_eq!(get_arg(&b, "--output"), None);
    let c = args(&["--output", "--output", "z"]);
    assert_eq!(get_arg(&c, "--output"), Some("--output".to_string()));
    assert_eq!(get_arg(&[], "--output"), None);
}

#[test]
fn timestamp_labels() {
    assert_eq!(timestamp_label(0), "0s_since_epoch");
    assert_eq!(timestamp_label(7), "7s_since_epoch");
    assert_eq!(timestamp_label(1700000000), "1700000000s_since_epoch");
    assert_eq!(timestamp_label(u64::MAX), format!("{}s_since_epoch", u64::MAX));
    for n in [10u64, 99, 100, 101, 4096, 1_000_000_007] {
        assert_eq!(timestamp_label(n), format!("{}s_since_epoch", n));
    }
}
