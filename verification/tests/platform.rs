use asgardex_native::platform::{resolve_device_type, MobileOSKind, PlatformClass, TargetProfile};

#[test]
fn device_type_is_mobile_on_android() {
    assert_eq!(resolve_device_type(Some(MobileOSKind::Android)), "mobile");
}

#[test]
fn device_type_is_mobile_on_ios() {
    assert_eq!(resolve_device_type(Some(MobileOSKind::IOS)), "mobile");
}

#[test]
fn device_type_is_desktop_without_mobile_kind() {
    assert_eq!(resolve_device_type(None), "desktop");
}

#[test]
fn device_type_is_stable_across_calls() {
    for _ in 0..3 {
        assert_eq!(resolve_device_type(None), "desktop");
        assert_eq!(resolve_device_type(Some(MobileOSKind::Android)), "mobile");
    }
}

#[test]
fn profiles_classify_consistently() {
    assert_eq!(TargetProfile::Desktop.classify(), PlatformClass::Desktop);
    assert_eq!(TargetProfile::Android.classify(), PlatformClass::Mobile);
    assert_eq!(TargetProfile::IOS.classify(), PlatformClass::Mobile);
    assert_eq!(TargetProfile::Desktop.mobile_kind(), None);
    assert_eq!(TargetProfile::Android.mobile_kind(), Some(MobileOSKind::Android));
    assert_eq!(TargetProfile::IOS.mobile_kind(), Some(MobileOSKind::IOS));
}

#[test]
fn profile_device_types() {
    assert_eq!(resolve_device_type(TargetProfile::Desktop.mobile_kind()), "desktop");
    assert_eq!(resolve_device_type(TargetProfile::Android.mobile_kind()), "mobile");
    assert_eq!(resolve_device_type(TargetProfile::IOS.mobile_kind()), "mobile");
}
