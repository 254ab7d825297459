use telefetch::manager::{cancel_download, TransferManager};

#[test]
fn token_counter_starts_at_one_and_wraps_to_one() {
    let mut m = TransferManager::new();
    let first = m.next_token();
    assert_eq!(first, 1);
    let mut last = first;
    // walk the whole space once: 255 distinct nonzero values, then wrap
    for _ in 0..254 {
        last = m.next_token();
        assert_ne!(last, 0);
    }
    assert_eq!(last, 255);
    assert_eq!(m.next_token(), 1);
}

#[test]
fn token_counter_never_assigns_zero() {
    let mut m = TransferManager::new();
    for _ in 0..600 {
        assert_ne!(m.next_token(), 0);
    }
}

#[test]
fn trigger_on_unknown_token_is_a_no_op() {
    let m = TransferManager::new();
    assert!(!m.trigger(7));
    assert!(!m.trigger(0));
}

#[test]
fn trigger_after_unregister_is_dropped() {
    let mut m = TransferManager::new();
    let token = m.next_token();
    let signal = m.register(token);
    assert!(m.is_active(token));
    m.unregister(token);
    assert!(!m.is_active(token));
    assert!(!m.trigger(token));
    assert!(!signal.is_cancelled());
}

#[test]
fn trigger_cancels_the_handed_out_signal() {
    let mut m = TransferManager::new();
    let token = m.next_token();
    let signal = m.register(token);
    assert!(!signal.is_cancelled());
    assert_eq!(m.poll_cancelled(token), Some(false));
    assert!(m.trigger(token));
    assert!(signal.is_cancelled());
    assert_eq!(m.poll_cancelled(token), Some(true));
    assert!(m.is_active(token));
    m.unregister(token);
    assert_eq!(m.poll_cancelled(token), None);
}

#[test]
fn cancel_download_rejects_empty_payload() {
    let m = TransferManager::new();
    assert_eq!(cancel_download(&m, &[]), "Invalid Message Id");
}

#[test]
fn cancel_download_fires_the_first_byte_token() {
    let mut m = TransferManager::new();
    let token = m.next_token();
    let signal = m.register(token);
    let reply = cancel_download(&m, &[token, 99]);
    assert_eq!(reply, "Download will be canceled shortly");
    assert!(signal.is_cancelled());
}

#[test]
fn cancel_download_on_finished_transfer_is_harmless() {
    let mut m = TransferManager::new();
    let token = m.next_token();
    let _signal = m.register(token);
    m.unregister(token);
    let reply = cancel_download(&m, &[token]);
    assert_eq!(reply, "Download will be canceled shortly");
    assert!(!m.is_active(token));
}
