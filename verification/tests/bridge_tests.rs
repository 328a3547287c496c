use blur_core::bridge;
use blur_core::controller::EffectController;
use blur_core::fake::FakeNative;
use blur_core::status::BLUR_INVALID_HANDLE;

#[test]
fn error_bridge_null_handle_falls_back() {
    // success status but a null string handle: the fixed fallback comes
    // back and nothing is released
    let mut fake = FakeNative::new();
    fake.error_handle = 0;
    let msg = bridge::get_last_error_message(&mut fake);
    assert_eq!(msg, "Unknown error".to_string());
    assert_eq!(fake.error_calls, 1);
    assert_eq!(fake.free_calls, 0);
}

#[test]
fn error_bridge_copies_text_and_frees_once() {
    let mut fake = FakeNative::new();
    fake.error_handle = 17;
    fake.error_text = String::from("composition refused the request");
    let msg = bridge::get_last_error_message(&mut fake);
    assert_eq!(msg, "composition refused the request".to_string());
    // the release hook ran exactly once, with exactly that handle
    assert_eq!(fake.free_calls, 1);
    assert_eq!(fake.last_freed, 17);
}

#[test]
fn error_bridge_failure_status_falls_back() {
    let mut fake = FakeNative::new();
    fake.error_status = BLUR_INVALID_HANDLE;
    fake.error_handle = 17;
    fake.error_text = String::from("never read");
    let msg = bridge::get_last_error_message(&mut fake);
    assert_eq!(msg, "Unknown error".to_string());
    assert_eq!(fake.free_calls, 0);
}

#[test]
fn version_bridge_returns_exact_text() {
    let mut fake = FakeNative::new();
    fake.version_handle = 23;
    fake.version_text = String::from("1.2.3");
    let v = bridge::get_version(&mut fake);
    assert_eq!(v, "1.2.3".to_string());
    assert_eq!(fake.version_calls, 1);
    assert_eq!(fake.free_calls, 1);
    assert_eq!(fake.last_freed, 23);
}

#[test]
fn version_bridge_failure_yields_sentinel() {
    let mut fake = FakeNative::new();
    fake.version_status = 1;
    fake.version_handle = 23;
    fake.version_text = String::from("1.2.3");
    let v = bridge::get_version(&mut fake);
    assert_eq!(v, "unknown".to_string());
    assert_eq!(fake.free_calls, 0);
}

#[test]
fn version_through_controller() {
    let mut fake = FakeNative::new();
    fake.version_handle = 23;
    fake.version_text = String::from("1.2.3");
    let ctrl = EffectController::new(true);
    // the version query needs no prior initialization and never fails
    assert_eq!(ctrl.get_blur_version(&mut fake), "1.2.3".to_string());

    let mut failing = FakeNative::new();
    failing.version_status = 2;
    assert_eq!(ctrl.get_blur_version(&mut failing), "unknown".to_string());
}
