use asgardex_native::integrations::{compose, compose_for, Integration};
use asgardex_native::platform::{MobileOSKind, PlatformClass, TargetProfile};

fn base() -> Vec<Integration> {
    vec![
        Integration::Dialog,
        Integration::Opener,
        Integration::Filesystem,
        Integration::Logging,
        Integration::KeyValueStore,
        Integration::SecureStorage,
    ]
}

fn all_inputs() -> Vec<(PlatformClass, Option<MobileOSKind>)> {
    let mut inputs = Vec::new();
    for platform in [PlatformClass::Desktop, PlatformClass::Mobile] {
        for kind in [None, Some(MobileOSKind::Android), Some(MobileOSKind::IOS)] {
            inputs.push((platform, kind));
        }
    }
    inputs
}

#[test]
fn desktop_set() {
    let mut expected = base();
    expected.push(Integration::Notification);
    assert_eq!(compose(PlatformClass::Desktop, None), expected);
    assert_eq!(compose_for(TargetProfile::Desktop), expected);
}

#[test]
fn android_set() {
    let mut expected = base();
    expected.push(Integration::Biometric);
    expected.push(Integration::SafeAreaInsets);
    expected.push(Integration::AndroidFilesystem);
    assert_eq!(compose(PlatformClass::Mobile, Some(MobileOSKind::Android)), expected);
    assert_eq!(compose_for(TargetProfile::Android), expected);
}

#[test]
fn ios_set() {
    let mut expected = base();
    expected.push(Integration::Biometric);
    expected.push(Integration::SafeAreaInsets);
    assert_eq!(compose(PlatformClass::Mobile, Some(MobileOSKind::IOS)), expected);
    assert_eq!(compose_for(TargetProfile::IOS), expected);
}

#[test]
fn mobile_without_kind_set() {
    let mut expected = base();
    expected.push(Integration::Biometric);
    expected.push(Integration::SafeAreaInsets);
    assert_eq!(compose(PlatformClass::Mobile, None), expected);
}

#[test]
fn rules_apply_independently() {
    let mut expected = base();
    expected.push(Integration::AndroidFilesystem);
    expected.push(Integration::Notification);
    assert_eq!(compose(PlatformClass::Desktop, Some(MobileOSKind::Android)), expected);
    let mut expected = base();
    expected.push(Integration::Notification);
    assert_eq!(compose(PlatformClass::Desktop, Some(MobileOSKind::IOS)), expected);
}

#[test]
fn compose_is_deterministic() {
    for (platform, kind) in all_inputs() {
        assert_eq!(compose(platform, kind), compose(platform, kind));
    }
}

#[test]
fn base_is_always_a_prefix() {
    for (platform, kind) in all_inputs() {
        let set = compose(platform, kind);
        assert!(set.len() >= 7);
        assert_eq!(set[..6].to_vec(), base());
    }
}

#[test]
fn conditional_integrations_follow_the_platform() {
    for (platform, kind) in all_inputs() {
        let set = compose(platform, kind);
        let mobile = platform == PlatformClass::Mobile;
        assert_eq!(set.contains(&Integration::Biometric), mobile);
        assert_eq!(set.contains(&Integration::SafeAreaInsets), mobile);
        assert_eq!(set.contains(&Integration::Notification), !mobile);
        assert_eq!(
            set.contains(&Integration::AndroidFilesystem),
            kind == Some(MobileOSKind::Android)
        );
    }
}

#[test]
fn no_integration_attached_twice() {
    for (platform, kind) in all_inputs() {
        let set = compose(platform, kind);
        for i in 0..set.len() {
            for j in (i + 1)..set.len() {
                assert_ne!(set[i], set[j]);
            }
        }
    }
}
