use polymarket_v2_backend::strategies::base::{time_in_window, Signal};

#[test]
fn test_signal_is_trade() {
    assert!(Signal::Yes.is_trade());
    assert!(Signal::No.is_trade());
    assert!(!Signal::Hold.is_trade());
}

#[test]
fn test_signal_as_str() {
    assert_eq!(Signal::Yes.as_str(), "YES");
    assert_eq!(Signal::No.as_str(), "NO");
    assert_eq!(Signal::Hold.as_str(), "HOLD");
}

#[test]
fn time_window_bounds_are_inclusive() {
    assert!(time_in_window(5, 5, 300));
    assert!(time_in_window(300, 5, 300));
    assert!(!time_in_window(4, 5, 300));
    assert!(!time_in_window(301, 5, 300));
}
