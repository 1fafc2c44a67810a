use std::cell::RefCell;
use vochat_desktop::inject::{pause_media, InjectionError, InputSession};
use vochat_desktop::paste::{simulate_paste, KEY_GAP_MS, SETTLE_DELAY_MS};

#[test]
fn paste_runs_in_order_or_stops_at_first_failure() {
    let waits: RefCell<Vec<u64>> = RefCell::new(Vec::new());
    let mut session = InputSession::new();
    let r = simulate_paste(&mut session, &|ms| waits.borrow_mut().push(ms));
    match r {
        Ok(()) => assert_eq!(*waits.borrow(), vec![SETTLE_DELAY_MS, KEY_GAP_MS, KEY_GAP_MS]),
        Err(InjectionError::Connection(_)) => assert_eq!(*waits.borrow(), vec![SETTLE_DELAY_MS]),
        Err(InjectionError::Input(_)) => {
            let w = waits.borrow();
            assert!(!w.is_empty() && w.len() <= 3 && w[0] == SETTLE_DELAY_MS);
        }
    }
}

#[test]
fn paste_delays() {
    assert_eq!(SETTLE_DELAY_MS, 500);
    assert_eq!(KEY_GAP_MS, 100);
}

#[test]
fn media_pause_reports_a_known_error() {
    let mut session = InputSession::new();
    match pause_media(&mut session) {
        Ok(()) => {}
        Err(InjectionError::Connection(m)) => assert!(!m.is_empty()),
        Err(InjectionError::Input(m)) => assert!(!m.is_empty()),
    }
}

#[test]
fn error_message_is_kept() {
    assert_eq!(InjectionError::Connection("no display".to_string()).message(), "no display");
    assert_eq!(InjectionError::Input("refused".to_string()).message(), "refused");
}
