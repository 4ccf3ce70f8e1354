use sih26141::clock::{random_seed, seed_from_clock};
use sih26141::decimal::push_decimal;
use sih26141::distill::{DistillAction, Distiller};
use sih26141::divergence::first_divergence;
use sih26141::limits::{
    check_message_length, check_sweep_size, effective_key_length, effective_message,
    effective_pace_ms, run_settings, validate_key_length, RequestError, DEFAULT_KEY_LENGTH,
    MAX_MESSAGE_LEN,
};
use sih26141::notices::{join_failure, lagged_notice, scenario_failure, sweep_failure, sweep_label};
use sih26141::ports::fallback_ports;
use sih26141::progress::{progress_action, progress_batch, ProgressAction};
use sih26141::seeds::{scenario_seed, SEED_STRIDE};
use sih26141::verdict::{decide, VerdictNote};

fn decimal(n: u64) -> String {
    let mut s = String::from("n=");
    push_decimal(&mut s, n);
    s
}

#[test]
fn decimal_rendering() {
    assert_eq!(decimal(0), "n=0");
    assert_eq!(decimal(7), "n=7");
    assert_eq!(decimal(10), "n=10");
    assert_eq!(decimal(12345), "n=12345");
    assert_eq!(decimal(u64::MAX), format!("n={}", u64::MAX));
}

#[test]
fn request_error_messages() {
    assert_eq!(RequestError::MessageTooLong.message(), "message must be at most 10000 bytes");
    assert_eq!(
        RequestError::KeyLengthOutOfRange.message(),
        "key_length must be between 500 and 200000"
    );
    assert_eq!(
        RequestError::BaseThresholdOutOfRange.message(),
        "base_threshold must be between 0.0 and 1.0"
    );
    assert_eq!(
        RequestError::InterceptRatioOutOfRange.message(),
        "intercept_ratio must be between 0.0 and 1.0"
    );
    assert_eq!(
        RequestError::NoInterceptRatios.message(),
        "intercept_ratios must contain at least one value"
    );
    assert_eq!(
        RequestError::TooManyInterceptRatios.message(),
        "intercept_ratios must contain at most 32 values"
    );
    assert_eq!(
        RequestError::SweepRatioOutOfRange.message(),
        "each intercept_ratio must be between 0.0 and 1.0"
    );
}

#[test]
fn key_length_bounds() {
    assert_eq!(validate_key_length(499), Err(RequestError::KeyLengthOutOfRange));
    assert_eq!(validate_key_length(500), Ok(()));
    assert_eq!(validate_key_length(3000), Ok(()));
    assert_eq!(validate_key_length(200_000), Ok(()));
    assert_eq!(validate_key_length(200_001), Err(RequestError::KeyLengthOutOfRange));
    assert_eq!(validate_key_length(0), Err(RequestError::KeyLengthOutOfRange));
}

#[test]
fn message_length_counts_bytes() {
    let at_limit = "a".repeat(MAX_MESSAGE_LEN);
    assert_eq!(check_message_length(&at_limit), Ok(()));
    let over = "a".repeat(MAX_MESSAGE_LEN + 1);
    assert_eq!(check_message_length(&over), Err(RequestError::MessageTooLong));
    // 5000 two-byte characters are 10000 bytes; one more is too long.
    let wide = "é".repeat(5000);
    assert_eq!(check_message_length(&wide), Ok(()));
    let wider = "é".repeat(5001);
    assert_eq!(check_message_length(&wider), Err(RequestError::MessageTooLong));
    assert_eq!(check_message_length(""), Ok(()));
}

#[test]
fn sweep_size_bounds() {
    assert_eq!(check_sweep_size(0), Err(RequestError::NoInterceptRatios));
    assert_eq!(check_sweep_size(1), Ok(()));
    assert_eq!(check_sweep_size(11), Ok(()));
    assert_eq!(check_sweep_size(32), Ok(()));
    assert_eq!(check_sweep_size(33), Err(RequestError::TooManyInterceptRatios));
}

#[test]
fn request_defaults() {
    assert_eq!(effective_key_length(None), DEFAULT_KEY_LENGTH);
    assert_eq!(effective_key_length(Some(20_000)), 20_000);
    assert_eq!(effective_pace_ms(None), 4);
    assert_eq!(effective_pace_ms(Some(0)), 0);
    assert_eq!(effective_pace_ms(Some(20)), 20);
    assert_eq!(effective_pace_ms(Some(50)), 50);
    assert_eq!(effective_pace_ms(Some(500)), 50);
    assert_eq!(effective_message(None), "SIH26141 Sensitive Financial Transaction Data");
    assert_eq!(effective_message(Some("hello".to_string())), "hello");
}

#[test]
fn run_settings_accepts_and_orders_errors() {
    let s = run_settings(None, None, None).unwrap();
    assert_eq!(s.key_length, 3000);
    assert_eq!(s.pace_ms, 4);
    assert_eq!(s.message, "SIH26141 Sensitive Financial Transaction Data");

    let s = run_settings(Some(20_000), Some(99), Some("pay 5".to_string())).unwrap();
    assert_eq!(s.key_length, 20_000);
    assert_eq!(s.pace_ms, 50);
    assert_eq!(s.message, "pay 5");

    let long = "x".repeat(10_001);
    assert!(matches!(
        run_settings(Some(10), None, Some(long.clone())),
        Err(RequestError::MessageTooLong)
    ));
    assert!(matches!(
        run_settings(Some(3000), None, Some(long)),
        Err(RequestError::MessageTooLong)
    ));
    assert!(matches!(
        run_settings(Some(10), None, None),
        Err(RequestError::KeyLengthOutOfRange)
    ));
}

#[test]
fn notices_text() {
    assert_eq!(sweep_label(0), "sweep-0");
    assert_eq!(sweep_label(10), "sweep-10");
    assert_eq!(
        scenario_failure("attack", "Key length must be positive."),
        "Scenario 'attack' failed: Key length must be positive."
    );
    assert_eq!(sweep_failure(3, "boom"), "Sweep point 3 failed: boom");
    assert_eq!(lagged_notice(5), "{\"type\":\"lagged\",\"skipped\":5}");
    assert_eq!(lagged_notice(1024), "{\"type\":\"lagged\",\"skipped\":1024}");
    assert_eq!(join_failure("task panicked"), "Task join failure: task panicked");
}

#[test]
fn verdict_signal_loss() {
    for within in [true, false] {
        let v = decide(0, within);
        assert!(!v.is_authentic);
        assert!(v.threat_flagged);
        assert_eq!(v.note, VerdictNote::SignalLoss);
    }
    assert_eq!(
        VerdictNote::SignalLoss.text(),
        "Zero matching bases: complete signal loss or empty transmission."
    );
}

#[test]
fn verdict_against_threshold() {
    let clean = decide(6650, true);
    assert!(clean.is_authentic);
    assert!(!clean.threat_flagged);
    assert_eq!(clean.note, VerdictNote::FiniteKeyBound);
    let attacked = decide(6650, false);
    assert!(!attacked.is_authentic);
    assert!(attacked.threat_flagged);
    assert_eq!(VerdictNote::FiniteKeyBound.text(), "Evaluated with finite-key Hoeffding bound.");
}

#[test]
fn distill_authentic_with_message() {
    let v = decide(100, true);
    let mut d = Distiller::new(&v, true);
    assert_eq!(d.next_action(), DistillAction::DeriveSecret);
    assert!(d.secret().is_none());
    d.record_secret("ab12".to_string());
    assert_eq!(d.secret().map(|s| s.as_str()), Some("ab12"));
    assert_eq!(d.next_action(), DistillAction::ComputeTag);
    d.record_tag("tag".to_string());
    assert_eq!(d.tag().map(|s| s.as_str()), Some("tag"));
    assert_eq!(d.next_action(), DistillAction::VerifyTag);
    d.record_check(Some(true));
    assert_eq!(d.next_action(), DistillAction::Finish);
    let m = d.finish();
    assert_eq!(m.derived_secret.as_deref(), Some("ab12"));
    assert_eq!(m.hmac_tag.as_deref(), Some("tag"));
    assert_eq!(m.hmac_valid, Some(true));
}

#[test]
fn distill_failed_check_counts_as_invalid() {
    let mut d = Distiller::new(&decide(100, true), true);
    d.record_secret("s".to_string());
    d.record_tag("t".to_string());
    d.record_check(None);
    let m = d.finish();
    assert_eq!(m.hmac_valid, Some(false));
}

#[test]
fn distill_authentic_without_message() {
    let mut d = Distiller::new(&decide(100, true), false);
    assert_eq!(d.next_action(), DistillAction::DeriveSecret);
    d.record_secret("s".to_string());
    assert_eq!(d.next_action(), DistillAction::Finish);
    let m = d.finish();
    assert_eq!(m.derived_secret.as_deref(), Some("s"));
    assert!(m.hmac_tag.is_none());
    assert!(m.hmac_valid.is_none());
}

#[test]
fn compromised_channel_yields_no_key() {
    for has_message in [true, false] {
        let d = Distiller::new(&decide(100, false), has_message);
        assert_eq!(d.next_action(), DistillAction::Finish);
        let m = d.finish();
        assert!(m.derived_secret.is_none());
        assert!(m.hmac_tag.is_none());
        assert!(m.hmac_valid.is_none());
    }
    let d = Distiller::new(&decide(0, true), true);
    assert_eq!(d.next_action(), DistillAction::Finish);
    assert!(d.finish().derived_secret.is_none());
}

#[test]
fn divergence_positions() {
    assert_eq!(first_divergence(&[1, 0, 1, 1], &[1, 0, 1, 1]), None);
    assert_eq!(first_divergence(&[1, 0, 0, 1], &[1, 0, 1, 1]), Some(2));
    assert_eq!(first_divergence(&[0, 0, 1, 1], &[1, 0, 1, 0]), Some(0));
    assert_eq!(first_divergence(&[1, 0], &[1, 0, 1, 1]), None);
    assert_eq!(first_divergence(&[1, 0, 1, 1], &[1, 0]), None);
    assert_eq!(first_divergence(&[], &[1]), None);
    let a = [0u8, 1, 1, 0, 1];
    let b = [0u8, 1, 0, 0, 0];
    assert_eq!(first_divergence(&a, &b), first_divergence(&b, &a));
}

#[test]
fn progress_batches() {
    assert_eq!(progress_batch(3000), 30);
    assert_eq!(progress_batch(20_000), 200);
    assert_eq!(progress_batch(150), 1);
    assert_eq!(progress_batch(99), 1);
    assert_eq!(progress_batch(0), 1);
}

#[test]
fn progress_actions() {
    assert_eq!(progress_action(28, 3000, 4), ProgressAction::Continue);
    assert_eq!(progress_action(29, 3000, 4), ProgressAction::ReportThenPause);
    assert_eq!(progress_action(29, 3000, 0), ProgressAction::Report);
    assert_eq!(progress_action(2999, 3000, 4), ProgressAction::Report);
    // 550 qubits: batches of 5, the last qubit ends a batch too.
    assert_eq!(progress_action(549, 550, 7), ProgressAction::Report);
    // 1234 qubits: batches of 12; the last qubit is reported although 1234 % 12 != 0.
    assert_eq!(progress_action(1232, 1234, 4), ProgressAction::Continue);
    assert_eq!(progress_action(1233, 1234, 4), ProgressAction::Report);
    let reports = (0..3000).filter(|&i| progress_action(i, 3000, 0) != ProgressAction::Continue).count();
    assert_eq!(reports, 100);
}

#[test]
fn progress_reports_never_more_than_a_batch_apart() {
    for key_length in [1usize, 99, 550, 1234, 3000] {
        let batch = progress_batch(key_length);
        let mut last_report: Option<usize> = None;
        for i in 0..key_length {
            if progress_action(i, key_length, 1) != ProgressAction::Continue {
                let gap = match last_report {
                    Some(p) => i - p,
                    None => i + 1,
                };
                assert!(gap <= batch);
                last_report = Some(i);
            }
        }
        assert_eq!(last_report, Some(key_length - 1));
    }
}

#[test]
fn scenario_seeds() {
    assert_eq!(scenario_seed(777, 0), 777);
    assert_eq!(scenario_seed(777, 1), 777u64.wrapping_add(SEED_STRIDE));
    assert_eq!(scenario_seed(u64::MAX, 1), SEED_STRIDE - 1);
    assert_ne!(scenario_seed(42, 0), scenario_seed(42, 1));
}

#[test]
fn clock_seed() {
    assert_eq!(seed_from_clock(None), 42);
    assert_eq!(seed_from_clock(Some(1_700_000_000_123_456_789)), 1_700_000_000_123_456_789);
    assert_eq!(seed_from_clock(Some((1u128 << 64) + 5)), 5);
    let nanos_now = std::time::SystemTime::now()
        .duration_since(std::time::UNIX_EPOCH)
        .unwrap()
        .as_nanos() as u64;
    let s = random_seed();
    assert_ne!(s, 42);
    // The seed is the clock's nanoseconds: within a minute of our own reading.
    assert!(s.abs_diff(nanos_now) < 60_000_000_000);
}

#[test]
fn fallback_port_list() {
    assert_eq!(
        fallback_ports(8080),
        vec![8081, 8082, 8083, 8084, 8085, 8086, 8087, 8088, 8089, 8090]
    );
    assert_eq!(fallback_ports(65525).last(), Some(&65535));
}
