use blink::cancel::CancelHandle;

#[test]
fn cancel_handle_records_pending_before_ctx_is_set() {
    let mut handle = CancelHandle::new();
    // No context yet: the cancel must be parked, not dropped.
    assert_eq!(handle.cancel(), None);
    assert!(
        handle.is_pending(),
        "a cancel issued before new_sd_ctx returned must be remembered"
    );
}

#[test]
fn cancel_handle_is_inert_after_clear() {
    let mut handle = CancelHandle::new();
    handle.clear(7);
    assert_eq!(handle.cancel(), None);
    assert!(handle.context().is_none());
    assert!(handle.is_pending());
}

#[test]
fn parked_cancel_is_replayed_on_the_next_context() {
    let mut handle = CancelHandle::default();
    handle.cancel();
    assert_eq!(handle.set(42), Some(42));
    assert!(!handle.is_pending());
    // Replayed once only.
    handle.clear(42);
    assert_eq!(handle.set(43), None);
}

#[test]
fn cancel_reaches_the_live_context() {
    let mut handle = CancelHandle::new();
    assert_eq!(handle.set(1), None);
    assert_eq!(handle.cancel(), Some(1));
    assert!(!handle.is_pending());
}

#[test]
fn model_switch_keeps_cancel_armed() {
    let mut handle = CancelHandle::new();
    handle.set(1);
    // The new context is published before the old one is freed.
    handle.set(2);
    handle.clear(1);
    assert_eq!(handle.context(), Some(2));
    assert_eq!(handle.cancel(), Some(2));
    handle.clear(2);
    assert_eq!(handle.cancel(), None);
}
