use blur_core::controller::EffectController;
use blur_core::fake::FakeNative;
use blur_core::status::{BLUR_CAP_COLOR_CONTROL, BLUR_CAP_DWM_BLUR};

#[test]
fn apply_before_initialize_makes_no_native_call() {
    let mut fake = FakeNative::new();
    let mut ctrl = EffectController::new(true);
    let r = ctrl.apply_blur(&mut fake, 42, 1.0f32.to_bits(), 0x8000_0000);
    assert_eq!(r, Err("Library not initialized".to_string()));
    assert_eq!(fake.apply_calls, 0);
    assert_eq!(fake.init_calls, 0);
    assert_eq!(fake.error_calls, 0);
}

#[test]
fn clear_before_initialize_makes_no_native_call() {
    let mut fake = FakeNative::new();
    let mut ctrl = EffectController::new(true);
    let r = ctrl.clear_blur(&mut fake, 42);
    assert_eq!(r, Err("Library not initialized".to_string()));
    assert_eq!(fake.clear_calls, 0);
}

#[test]
fn initialize_records_capabilities() {
    let mut fake = FakeNative::new();
    fake.init_caps = BLUR_CAP_DWM_BLUR | BLUR_CAP_COLOR_CONTROL;
    let mut ctrl = EffectController::new(true);
    let r = ctrl.blur_init_lib(&mut fake);
    assert_eq!(r, Ok(BLUR_CAP_DWM_BLUR | BLUR_CAP_COLOR_CONTROL));
    assert!(ctrl.is_initialized());
    assert_eq!(ctrl.capabilities(), BLUR_CAP_DWM_BLUR | BLUR_CAP_COLOR_CONTROL);
    assert_eq!(fake.init_calls, 1);
}

#[test]
fn second_initialize_rejected_after_success() {
    let mut fake = FakeNative::new();
    fake.init_caps = 5;
    let mut ctrl = EffectController::new(true);
    assert_eq!(ctrl.blur_init_lib(&mut fake), Ok(5));
    let second = ctrl.blur_init_lib(&mut fake);
    assert_eq!(second, Err("Already initialized".to_string()));
    // the native init entry point was reached exactly once
    assert_eq!(fake.init_calls, 1);
}

#[test]
fn repeated_initialize_rejected_while_initialized() {
    // every request after the one that performed the transition observes
    // the rejection, and the native init entry point is not reached again
    let mut fake = FakeNative::new();
    let mut ctrl = EffectController::new(true);
    assert!(ctrl.blur_init_lib(&mut fake).is_ok());
    for _ in 0..8 {
        assert_eq!(
            ctrl.blur_init_lib(&mut fake),
            Err("Already initialized".to_string())
        );
    }
    assert_eq!(fake.init_calls, 1);
}

#[test]
fn failed_initialize_reports_code_and_stays_uninitialized() {
    let mut fake = FakeNative::new();
    fake.init_status = 7;
    let mut ctrl = EffectController::new(true);
    let r = ctrl.blur_init_lib(&mut fake);
    assert_eq!(r, Err("blur_init failed with code 7".to_string()));
    assert!(!ctrl.is_initialized());
    assert_eq!(fake.init_calls, 1);
}

#[test]
fn failed_initialize_reports_negative_code() {
    let mut fake = FakeNative::new();
    fake.init_status = -12;
    let mut ctrl = EffectController::new(true);
    let r = ctrl.blur_init_lib(&mut fake);
    assert_eq!(r, Err("blur_init failed with code -12".to_string()));
}

#[test]
fn unsupported_platform_rejects_everything_without_calls() {
    let mut fake = FakeNative::new();
    let mut ctrl = EffectController::new(false);
    assert_eq!(
        ctrl.blur_init_lib(&mut fake),
        Err("Only supported on Windows".to_string())
    );
    assert_eq!(
        ctrl.apply_blur(&mut fake, 1, 0, 0),
        Err("Only supported on Windows".to_string())
    );
    assert_eq!(
        ctrl.clear_blur(&mut fake, 1),
        Err("Only supported on Windows".to_string())
    );
    assert_eq!(ctrl.get_blur_version(&mut fake), "N/A".to_string());
    assert_eq!(fake.init_calls, 0);
    assert_eq!(fake.apply_calls, 0);
    assert_eq!(fake.clear_calls, 0);
    assert_eq!(fake.version_calls, 0);
}

#[test]
fn shutdown_returns_to_uninitialized_and_calls_native() {
    let mut fake = FakeNative::new();
    let mut ctrl = EffectController::new(true);
    assert!(ctrl.blur_init_lib(&mut fake).is_ok());
    ctrl.shutdown(&mut fake);
    assert!(!ctrl.is_initialized());
    assert_eq!(fake.shutdown_calls, 1);
    // unguarded: a second shutdown reaches the native entry point again
    ctrl.shutdown(&mut fake);
    assert_eq!(fake.shutdown_calls, 2);
    // and initialize is accepted again afterwards
    assert!(ctrl.blur_init_lib(&mut fake).is_ok());
    assert_eq!(fake.init_calls, 2);
}
