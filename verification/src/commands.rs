//! The command surface: the operations that the host may dispatch by name.

use vstd::prelude::*;
use crate::integrations::{integration_set, lemma_integration_set_membership, Integration};
use crate::platform::{MobileOSKind, PlatformClass};

verus! {

/// An operation exposed to the application layer.
#[derive(Clone, Copy, Debug, PartialEq, Eq, Structural)]
pub enum Command {
    /// The synchronous device-class query.
    ResolveDeviceType,
    /// The asynchronous secure export into public storage.
    SecureExportToDownloads,
}

/// A command that was registered without the integration it relies on.
#[derive(Clone, Copy, Debug, PartialEq, Eq, Structural)]
pub struct UnbackedCommand {
    /// Where the command stands in the surface.
    pub position: usize,
    pub command: Command,
}

/// The name under which the host dispatches a command.
pub open spec fn command_name_text(command: Command) -> Seq<char> {
    match command {
        Command::ResolveDeviceType => "resolve_device_type"@,
        Command::SecureExportToDownloads => "save_keystore_to_downloads_android"@,
    }
}

/// The command that a name stands for, if any.
pub open spec fn named_command(name: Seq<char>) -> Option<Command> {
    if name == "resolve_device_type"@ {
        Some(Command::ResolveDeviceType)
    } else if name == "save_keystore_to_downloads_android"@ {
        Some(Command::SecureExportToDownloads)
    } else {
        None
    }
}

/// The commands that a platform is entitled to: the device-class query
/// everywhere, the secure export on Android alone.
pub open spec fn command_surface(kind: Option<MobileOSKind>) -> Seq<Command> {
    if kind == Some(MobileOSKind::Android) {
        seq![Command::ResolveDeviceType, Command::SecureExportToDownloads]
    } else {
        seq![Command::ResolveDeviceType]
    }
}

/// The integration that a command relies on, if it relies on one.
pub open spec fn required_integration(command: Command) -> Option<Integration> {
    match command {
        Command::ResolveDeviceType => None,
        Command::SecureExportToDownloads => Some(Integration::AndroidFilesystem),
    }
}

/// Whether the integration that a command relies on is among those given.
pub open spec fn is_backed(command: Command, integrations: Seq<Integration>) -> bool {
    match required_integration(command) {
        Some(integration) => integrations.contains(integration),
        None => true,
    }
}

/// Whether every command of a surface is backed.
pub open spec fn surface_backed(commands: Seq<Command>, integrations: Seq<Integration>) -> bool {
    forall|i: int| 0 <= i < commands.len() ==> is_backed(#[trigger] commands[i], integrations)
}

/// The command that the host reaches under a name on a given surface: the
/// command of that name, provided the surface holds it.
pub open spec fn dispatch_target(surface: Seq<Command>, name: Seq<char>) -> Option<Command> {
    match named_command(name) {
        Some(command) => if surface.contains(command) {
            Some(command)
        } else {
            None
        },
        None => None,
    }
}

/// The name under which the host dispatches a command.
pub fn command_name(command: Command) -> (name: &'static str)
    ensures
        name@ == command_name_text(command),
        named_command(name@) == Some(command),
{
    proof {
        lemma_command_names_differ();
    }
    match command {
        Command::ResolveDeviceType => "resolve_device_type",
        Command::SecureExportToDownloads => "save_keystore_to_downloads_android",
    }
}

/// Reads a command name. `None` for a name that no command has.
pub fn parse_command_name(name: &str) -> (command: Option<Command>)
    ensures
        command == named_command(name@),
{
    let given: String = name.to_owned();
    let query: String = "resolve_device_type".to_owned();
    let export: String = "save_keystore_to_downloads_android".to_owned();
    if given == query {
        Some(Command::ResolveDeviceType)
    } else if given == export {
        Some(Command::SecureExportToDownloads)
    } else {
        None
    }
}

/// The commands to register for a platform, in registration order.
pub fn registered_commands(kind: Option<MobileOSKind>) -> (commands: Vec<Command>)
    ensures
        commands@ == command_surface(kind),
        commands@.contains(Command::ResolveDeviceType),
        commands@.contains(Command::SecureExportToDownloads) <==> kind == Some(
            MobileOSKind::Android,
        ),
{
    let mut commands: Vec<Command> = Vec::new();
    commands.push(Command::ResolveDeviceType);
    match kind {
        Some(MobileOSKind::Android) => {
            commands.push(Command::SecureExportToDownloads);
        },
        _ => {},
    }
    assert(commands@ =~= command_surface(kind));
    proof {
        lemma_surface_membership(kind);
    }
    commands
}

/// Tells whether a surface holds a command.
pub fn has_command(surface: &Vec<Command>, wanted: Command) -> (found: bool)
    ensures
        found == surface@.contains(wanted),
{
    let mut i: usize = 0;
    while i < surface.len()
        invariant
            i <= surface.len(),
            forall|j: int| 0 <= j < i ==> surface@[j] != wanted,
        decreases surface.len() - i,
    {
        if surface[i] == wanted {
            return true;
        }
        i += 1;
    }
    false
}

/// Tells whether an integration is among those given.
pub fn has_integration(integrations: &Vec<Integration>, wanted: Integration) -> (found: bool)
    ensures
        found == integrations@.contains(wanted),
{
    let mut i: usize = 0;
    while i < integrations.len()
        invariant
            i <= integrations.len(),
            forall|j: int| 0 <= j < i ==> integrations@[j] != wanted,
        decreases integrations.len() - i,
    {
        if integrations[i] == wanted {
            return true;
        }
        i += 1;
    }
    false
}

/// Resolves a name against a surface, as the host does when it dispatches.
/// A command that is not registered cannot be reached, whatever the name.
pub fn find_command(surface: &Vec<Command>, name: &str) -> (command: Option<Command>)
    ensures
        command == dispatch_target(surface@, name@),
{
    match parse_command_name(name) {
        Some(command) => {
            if has_command(surface, command) {
                Some(command)
            } else {
                None
            }
        },
        None => None,
    }
}

/// Tells whether a surface is exactly the one that the platform is entitled
/// to: the same commands in the same order.
pub fn matches_entitlement(commands: &Vec<Command>, kind: Option<MobileOSKind>) -> (same: bool)
    ensures
        same == (commands@ == command_surface(kind)),
{
    let entitled = registered_commands(kind);
    if commands.len() != entitled.len() {
        return false;
    }
    let mut i: usize = 0;
    while i < commands.len()
        invariant
            i <= commands.len(),
            commands.len() == entitled.len(),
            entitled@ == command_surface(kind),
            forall|j: int| 0 <= j < i ==> commands@[j] == entitled@[j],
        decreases commands.len() - i,
    {
        if commands[i] != entitled[i] {
            return false;
        }
        i += 1;
    }
    assert(commands@ =~= entitled@);
    true
}

/// Checks, before the host serves requests, that every registered command is
/// backed by an attached integration. Reports the first that is not.
pub fn check_surface(commands: &Vec<Command>, integrations: &Vec<Integration>) -> (checked:
    Result<(), UnbackedCommand>)
    ensures
        checked is Ok <==> surface_backed(commands@, integrations@),
        checked matches Err(unbacked) ==> {
            &&& unbacked.position < commands@.len()
            &&& commands@[unbacked.position as int] == unbacked.command
            &&& !is_backed(unbacked.command, integrations@)
            &&& forall|j: int|
                0 <= j < unbacked.position ==> is_backed(#[trigger] commands@[j], integrations@)
        },
{
    let mut i: usize = 0;
    while i < commands.len()
        invariant
            i <= commands.len(),
            forall|j: int| 0 <= j < i ==> is_backed(#[trigger] commands@[j], integrations@),
        decreases commands.len() - i,
    {
        let command = commands[i];
        let backed = match command {
            Command::ResolveDeviceType => true,
            Command::SecureExportToDownloads => has_integration(
                integrations,
                Integration::AndroidFilesystem,
            ),
        };
        if !backed {
            return Err(UnbackedCommand { position: i, command });
        }
        i += 1;
    }
    Ok(())
}

/// The two command names are different strings.
pub proof fn lemma_command_names_differ()
    ensures
        "resolve_device_type"@ != "save_keystore_to_downloads_android"@,
        named_command(command_name_text(Command::ResolveDeviceType)) == Some(
            Command::ResolveDeviceType,
        ),
        named_command(command_name_text(Command::SecureExportToDownloads)) == Some(
            Command::SecureExportToDownloads,
        ),
{
    reveal_strlit("resolve_device_type");
    reveal_strlit("save_keystore_to_downloads_android");
    assert("resolve_device_type"@.len() == 19);
    assert("save_keystore_to_downloads_android"@.len() == 34);
}

/// The device-class query is on every platform's surface; the secure export
/// is on it exactly on Android.
pub proof fn lemma_surface_membership(kind: Option<MobileOSKind>)
    ensures
        command_surface(kind).contains(Command::ResolveDeviceType),
        command_surface(kind).contains(Command::SecureExportToDownloads) <==> kind == Some(
            MobileOSKind::Android,
        ),
        command_surface(kind).no_duplicates(),
{
    let surface = command_surface(kind);
    assert(surface[0] == Command::ResolveDeviceType);
    if kind == Some(MobileOSKind::Android) {
        assert(surface[1] == Command::SecureExportToDownloads);
    }
}

/// Off Android the secure export cannot be reached by any name: the surface
/// does not hold it, so dispatch finds at most the device-class query.
pub proof fn lemma_export_absent_off_android(kind: Option<MobileOSKind>, name: Seq<char>)
    requires
        kind != Some(MobileOSKind::Android),
    ensures
        !command_surface(kind).contains(Command::SecureExportToDownloads),
        dispatch_target(command_surface(kind), name) != Some(Command::SecureExportToDownloads),
        dispatch_target(command_surface(kind), command_name_text(Command::SecureExportToDownloads))
            is None,
{
    lemma_surface_membership(kind);
    lemma_command_names_differ();
}

/// A command is reached under its own name exactly when the surface holds
/// it, and under no other command's name.
pub proof fn lemma_dispatch_by_own_name(surface: Seq<Command>, command: Command)
    ensures
        dispatch_target(surface, command_name_text(command)) == (if surface.contains(command) {
            Some(command)
        } else {
            None
        }),
        forall|name: Seq<char>|
            dispatch_target(surface, name) == Some(command) ==> name == command_name_text(command),
{
    lemma_command_names_differ();
}

/// The surface that a platform is entitled to is backed by the integrations
/// composed for it, for every combination of class and OS kind.
pub proof fn lemma_entitled_surface_is_backed(platform: PlatformClass, kind: Option<MobileOSKind>)
    ensures
        surface_backed(command_surface(kind), integration_set(platform, kind)),
{
    lemma_integration_set_membership(platform, kind);
    let integrations = integration_set(platform, kind);
    assert(integrations.contains(Integration::AndroidFilesystem) <==> kind == Some(
        MobileOSKind::Android,
    ));
}

} // verus!
