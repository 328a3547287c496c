use blur_core::controller::EffectController;
use blur_core::fake::FakeNative;
use blur_core::native::NativeEffects;

#[test]
fn racing_initialize_requests_single_transition() {
    // callers that share one controller serialize their requests behind a
    // lock; this test plays such a serialized race of eight initialize
    // requests against a native layer that always succeeds: exactly one
    // request observes the transition, the native init entry point runs
    // exactly once, and every other request observes "already initialized"
    let mut ctrl = EffectController::new(true);
    let mut fake = FakeNative::new();
    let results: Vec<Result<u32, String>> =
        (0..8).map(|_| ctrl.blur_init_lib(&mut fake)).collect();
    assert_eq!(results.iter().filter(|r| r.is_ok()).count(), 1);
    assert!(results[0].is_ok());
    for r in results.iter().skip(1) {
        assert_eq!(*r, Err("Already initialized".to_string()));
    }
    assert!(ctrl.is_initialized());
    assert_eq!(fake.init_calls, 1);
}

#[test]
fn restore_all_answers_scripted_status() {
    let mut fake = FakeNative::new();
    assert_eq!(fake.restore_all(), 0);
    fake.restore_status = 3;
    assert_eq!(fake.restore_all(), 3);
    assert_eq!(fake.restore_calls, 2);
}
