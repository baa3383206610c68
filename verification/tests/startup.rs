use asgardex_native::commands::{check_surface, Command};
use asgardex_native::integrations::{compose_for, Integration};
use asgardex_native::logging::{LogLevel, LogSink};
use asgardex_native::platform::TargetProfile;
use asgardex_native::startup::plan_startup;

#[test]
fn desktop_plan() {
    let plan = plan_startup(TargetProfile::Desktop, None);
    assert_eq!(plan.logging.level, LogLevel::Info);
    assert_eq!(plan.logging.sinks, vec![LogSink::Stdout, LogSink::LogDirectory]);
    assert_eq!(plan.integrations, compose_for(TargetProfile::Desktop));
    assert_eq!(plan.commands, vec![Command::ResolveDeviceType]);
}

#[test]
fn android_plan_with_webview_logging() {
    let plan = plan_startup(TargetProfile::Android, Some("true"));
    assert_eq!(
        plan.logging.sinks,
        vec![LogSink::Stdout, LogSink::LogDirectory, LogSink::Webview]
    );
    assert_eq!(plan.integrations.len(), 9);
    assert_eq!(plan.integrations[8], Integration::AndroidFilesystem);
    assert_eq!(
        plan.commands,
        vec![Command::ResolveDeviceType, Command::SecureExportToDownloads]
    );
}

#[test]
fn ios_plan() {
    let plan = plan_startup(TargetProfile::IOS, Some("TRUE"));
    assert_eq!(plan.logging.sinks, vec![LogSink::Stdout, LogSink::LogDirectory]);
    assert_eq!(plan.integrations.len(), 8);
    assert!(!plan.integrations.contains(&Integration::AndroidFilesystem));
    assert_eq!(plan.commands, vec![Command::ResolveDeviceType]);
}

#[test]
fn every_plan_is_backed() {
    for profile in [TargetProfile::Desktop, TargetProfile::Android, TargetProfile::IOS] {
        for flag in [None, Some("true"), Some("false")] {
            let plan = plan_startup(profile, flag);
            assert_eq!(check_surface(&plan.commands, &plan.integrations), Ok(()));
            assert_eq!(plan, plan_startup(profile, flag));
        }
    }
}
