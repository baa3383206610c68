use asgardex_native::commands::{
    check_surface, command_name, find_command, has_command, has_integration, matches_entitlement,
    parse_command_name, registered_commands, Command, UnbackedCommand,
};
use asgardex_native::integrations::{compose, Integration};
use asgardex_native::platform::{MobileOSKind, PlatformClass};

#[test]
fn command_names() {
    assert_eq!(command_name(Command::ResolveDeviceType), "resolve_device_type");
    assert_eq!(
        command_name(Command::SecureExportToDownloads),
        "save_keystore_to_downloads_android"
    );
}

#[test]
fn names_parse_back() {
    for command in [Command::ResolveDeviceType, Command::SecureExportToDownloads] {
        assert_eq!(parse_command_name(command_name(command)), Some(command));
    }
    assert_eq!(parse_command_name("secureExportToDownloads"), None);
    assert_eq!(parse_command_name("Resolve_Device_Type"), None);
    assert_eq!(parse_command_name(""), None);
}

#[test]
fn android_registers_both_commands() {
    assert_eq!(
        registered_commands(Some(MobileOSKind::Android)),
        vec![Command::ResolveDeviceType, Command::SecureExportToDownloads]
    );
}

#[test]
fn export_is_not_registered_off_android() {
    for kind in [None, Some(MobileOSKind::IOS)] {
        let surface = registered_commands(kind);
        assert_eq!(surface, vec![Command::ResolveDeviceType]);
        let names: Vec<&str> = surface.iter().map(|command| command_name(*command)).collect();
        assert!(!names.contains(&"save_keystore_to_downloads_android"));
        assert!(!has_command(&surface, Command::SecureExportToDownloads));
        assert_eq!(find_command(&surface, "save_keystore_to_downloads_android"), None);
    }
}

#[test]
fn dispatch_by_name() {
    let android = registered_commands(Some(MobileOSKind::Android));
    assert_eq!(
        find_command(&android, "resolve_device_type"),
        Some(Command::ResolveDeviceType)
    );
    assert_eq!(
        find_command(&android, "save_keystore_to_downloads_android"),
        Some(Command::SecureExportToDownloads)
    );
    assert_eq!(find_command(&android, "unknown"), None);
    let desktop = registered_commands(None);
    assert_eq!(
        find_command(&desktop, "resolve_device_type"),
        Some(Command::ResolveDeviceType)
    );
    assert_eq!(find_command(&Vec::new(), "resolve_device_type"), None);
}

#[test]
fn entitled_surfaces_are_backed() {
    for platform in [PlatformClass::Desktop, PlatformClass::Mobile] {
        for kind in [None, Some(MobileOSKind::Android), Some(MobileOSKind::IOS)] {
            assert_eq!(check_surface(&registered_commands(kind), &compose(platform, kind)), Ok(()));
        }
    }
}

#[test]
fn unbacked_export_is_caught() {
    let surface = registered_commands(Some(MobileOSKind::Android));
    let desktop = compose(PlatformClass::Desktop, None);
    assert_eq!(
        check_surface(&surface, &desktop),
        Err(UnbackedCommand { position: 1, command: Command::SecureExportToDownloads })
    );
    assert_eq!(
        check_surface(&vec![Command::SecureExportToDownloads], &Vec::new()),
        Err(UnbackedCommand { position: 0, command: Command::SecureExportToDownloads })
    );
    assert_eq!(check_surface(&vec![Command::ResolveDeviceType], &Vec::new()), Ok(()));
    assert_eq!(check_surface(&Vec::new(), &Vec::new()), Ok(()));
}

#[test]
fn integration_lookup() {
    let android = compose(PlatformClass::Mobile, Some(MobileOSKind::Android));
    assert!(has_integration(&android, Integration::AndroidFilesystem));
    assert!(has_integration(&android, Integration::Dialog));
    assert!(!has_integration(&android, Integration::Notification));
    assert!(!has_integration(&Vec::new(), Integration::Dialog));
}

#[test]
fn entitlement_is_matched_exactly() {
    let query = vec![Command::ResolveDeviceType];
    let both = vec![Command::ResolveDeviceType, Command::SecureExportToDownloads];
    let swapped = vec![Command::SecureExportToDownloads, Command::ResolveDeviceType];
    let android = Some(MobileOSKind::Android);
    assert!(matches_entitlement(&both, android));
    assert!(!matches_entitlement(&query, android));
    assert!(!matches_entitlement(&swapped, android));
    assert!(!matches_entitlement(&Vec::new(), android));
    for kind in [None, Some(MobileOSKind::IOS)] {
        assert!(matches_entitlement(&query, kind));
        assert!(!matches_entitlement(&both, kind));
        assert!(!matches_entitlement(&Vec::new(), kind));
        assert!(!matches_entitlement(&vec![Command::SecureExportToDownloads], kind));
    }
}
