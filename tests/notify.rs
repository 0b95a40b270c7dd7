use openrgb_daemon::notify::{
    finish_notification, monotonic_usec, monotonic_usec_field, monotonic_usec_state,
    notify_state_monotonic_usec, ready_notification, NotifyError, SdNotifyType,
};
use openrgb_daemon::session::{SessionFailure, SupervisionOutcome};

#[test]
fn usec_of_whole_and_fraction() {
    assert_eq!(monotonic_usec(2, 500_000_000), Some(2_500_000));
    assert_eq!(monotonic_usec(0, 999), Some(0));
    assert_eq!(monotonic_usec(12, 345_678_999), Some(12_345_678));
    assert_eq!(monotonic_usec(0, -1_500), Some(-1));
}

#[test]
fn usec_overflow_is_none() {
    assert_eq!(monotonic_usec(i64::MAX, 0), None);
    assert_eq!(monotonic_usec(i64::MIN, 0), None);
    assert_eq!(monotonic_usec(9_223_372_036_854, 775_807_000), Some(i64::MAX));
    assert_eq!(monotonic_usec(9_223_372_036_854, 775_808_000), None);
}

#[test]
fn usec_field_text() {
    assert_eq!(monotonic_usec_field(2_500_000), "MONOTONIC_USEC=2500000");
    assert_eq!(monotonic_usec_field(0), "MONOTONIC_USEC=0");
    assert_eq!(monotonic_usec_field(-42), "MONOTONIC_USEC=-42");
    assert_eq!(monotonic_usec_field(i64::MIN), format!("MONOTONIC_USEC={}", i64::MIN));
    assert_eq!(monotonic_usec_state(3, 7_000), Some("MONOTONIC_USEC=3000007".to_string()));
    assert_eq!(monotonic_usec_state(i64::MAX, 0), None);
}

#[test]
fn clock_reading_gives_a_field() {
    match notify_state_monotonic_usec() {
        Ok(text) => {
            let digits = text.strip_prefix("MONOTONIC_USEC=").expect("prefix");
            let value: i64 = digits.parse().expect("a number");
            assert!(value >= 0);
        }
        Err(NotifyError::Clock(e)) => panic!("clock failed: {:?}", e),
        Err(NotifyError::Overflow) => panic!("overflow"),
    }
}

#[test]
fn clock_readings_do_not_go_back() {
    let read = || -> i64 {
        let text = notify_state_monotonic_usec().expect("clock");
        text["MONOTONIC_USEC=".len()..].parse().expect("a number")
    };
    let first = read();
    let second = read();
    assert!(second >= first);
}

#[test]
fn notifications_only_under_a_supervisor() {
    assert_eq!(ready_notification(true), Some(SdNotifyType::Ready));
    assert_eq!(ready_notification(false), None);
    assert_eq!(finish_notification(true, SupervisionOutcome::Reload), Some(SdNotifyType::Reload));
    assert_eq!(finish_notification(false, SupervisionOutcome::Reload), None);
    assert_eq!(finish_notification(true, SupervisionOutcome::Exit), None);
    assert_eq!(
        finish_notification(true, SupervisionOutcome::Failure(SessionFailure::Spawn)),
        None
    );
}
