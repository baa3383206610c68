//! The capability composer: which integration providers are attached to the
//! host, as a function of the platform descriptor.

use vstd::prelude::*;
use crate::platform::{MobileOSKind, PlatformClass, TargetProfile};

verus! {

/// An OS-capability bridge that can be attached to the host at startup.
#[derive(Clone, Copy, Debug, PartialEq, Eq, Structural)]
pub enum Integration {
    Dialog,
    Opener,
    Filesystem,
    Logging,
    KeyValueStore,
    SecureStorage,
    Biometric,
    SafeAreaInsets,
    AndroidFilesystem,
    Notification,
}

/// The integrations that every platform receives, in attachment order.
pub open spec fn base_integrations() -> Seq<Integration> {
    seq![
        Integration::Dialog,
        Integration::Opener,
        Integration::Filesystem,
        Integration::Logging,
        Integration::KeyValueStore,
        Integration::SecureStorage,
    ]
}

/// The integrations added on a mobile platform.
pub open spec fn mobile_integrations(platform: PlatformClass) -> Seq<Integration> {
    if platform == PlatformClass::Mobile {
        seq![Integration::Biometric, Integration::SafeAreaInsets]
    } else {
        seq![]
    }
}

/// The integration added on Android alone.
pub open spec fn android_integrations(kind: Option<MobileOSKind>) -> Seq<Integration> {
    if kind == Some(MobileOSKind::Android) {
        seq![Integration::AndroidFilesystem]
    } else {
        seq![]
    }
}

/// The integration added on a desktop platform.
pub open spec fn desktop_integrations(platform: PlatformClass) -> Seq<Integration> {
    if platform == PlatformClass::Desktop {
        seq![Integration::Notification]
    } else {
        seq![]
    }
}

/// The ordered integration set of a platform: the base set, then the
/// mobile additions, then the Android addition, then the desktop addition.
pub open spec fn integration_set(platform: PlatformClass, kind: Option<MobileOSKind>) -> Seq<
    Integration,
> {
    base_integrations() + mobile_integrations(platform) + android_integrations(kind)
        + desktop_integrations(platform)
}

/// Whether the policy grants `integration` to the given platform.
pub open spec fn is_granted(
    platform: PlatformClass,
    kind: Option<MobileOSKind>,
    integration: Integration,
) -> bool {
    match integration {
        Integration::Biometric | Integration::SafeAreaInsets => platform == PlatformClass::Mobile,
        Integration::AndroidFilesystem => kind == Some(MobileOSKind::Android),
        Integration::Notification => platform == PlatformClass::Desktop,
        _ => true,
    }
}

/// Builds the ordered integration set for a platform. Every combination of
/// inputs yields a set; composition cannot fail.
pub fn compose(platform: PlatformClass, kind: Option<MobileOSKind>) -> (set: Vec<Integration>)
    ensures
        set@ == integration_set(platform, kind),
        set@.len() >= 7,
        set@.no_duplicates(),
        forall|integration: Integration| #[trigger]
            set@.contains(integration) <==> is_granted(platform, kind, integration),
{
    let mut set: Vec<Integration> = Vec::new();
    set.push(Integration::Dialog);
    set.push(Integration::Opener);
    set.push(Integration::Filesystem);
    set.push(Integration::Logging);
    set.push(Integration::KeyValueStore);
    set.push(Integration::SecureStorage);
    assert(set@ =~= base_integrations());
    match platform {
        PlatformClass::Mobile => {
            set.push(Integration::Biometric);
            set.push(Integration::SafeAreaInsets);
        },
        PlatformClass::Desktop => {},
    }
    assert(set@ =~= base_integrations() + mobile_integrations(platform));
    match kind {
        Some(MobileOSKind::Android) => {
            set.push(Integration::AndroidFilesystem);
        },
        _ => {},
    }
    assert(set@ =~= base_integrations() + mobile_integrations(platform) + android_integrations(
        kind,
    ));
    match platform {
        PlatformClass::Desktop => {
            set.push(Integration::Notification);
        },
        PlatformClass::Mobile => {},
    }
    assert(set@ =~= integration_set(platform, kind));
    proof {
        lemma_integration_set_membership(platform, kind);
        lemma_integration_set_distinct(platform, kind);
    }
    set
}

/// Builds the integration set of a build target.
pub fn compose_for(profile: TargetProfile) -> (set: Vec<Integration>)
    ensures
        set@ == integration_set(profile.class(), profile.mobile_os()),
{
    compose(profile.classify(), profile.mobile_kind())
}

/// The integration set written out element by element, for each of the
/// four shapes it can take.
proof fn lemma_integration_set_explicit(platform: PlatformClass, kind: Option<MobileOSKind>)
    ensures
        platform == PlatformClass::Mobile && kind == Some(MobileOSKind::Android)
            ==> integration_set(platform, kind) =~= seq![
            Integration::Dialog,
            Integration::Opener,
            Integration::Filesystem,
            Integration::Logging,
            Integration::KeyValueStore,
            Integration::SecureStorage,
            Integration::Biometric,
            Integration::SafeAreaInsets,
            Integration::AndroidFilesystem,
        ],
        platform == PlatformClass::Mobile && kind != Some(MobileOSKind::Android)
            ==> integration_set(platform, kind) =~= seq![
            Integration::Dialog,
            Integration::Opener,
            Integration::Filesystem,
            Integration::Logging,
            Integration::KeyValueStore,
            Integration::SecureStorage,
            Integration::Biometric,
            Integration::SafeAreaInsets,
        ],
        platform == PlatformClass::Desktop && kind == Some(MobileOSKind::Android)
            ==> integration_set(platform, kind) =~= seq![
            Integration::Dialog,
            Integration::Opener,
            Integration::Filesystem,
            Integration::Logging,
            Integration::KeyValueStore,
            Integration::SecureStorage,
            Integration::AndroidFilesystem,
            Integration::Notification,
        ],
        platform == PlatformClass::Desktop && kind != Some(MobileOSKind::Android)
            ==> integration_set(platform, kind) =~= seq![
            Integration::Dialog,
            Integration::Opener,
            Integration::Filesystem,
            Integration::Logging,
            Integration::KeyValueStore,
            Integration::SecureStorage,
            Integration::Notification,
        ],
{
}

/// An integration is in a platform's set exactly when the policy grants it:
/// the base integrations always, the mobile additions exactly on mobile, the
/// Android provider exactly on Android, notifications exactly on desktop.
pub proof fn lemma_integration_set_membership(platform: PlatformClass, kind: Option<MobileOSKind>)
    ensures
        forall|integration: Integration| #[trigger]
            integration_set(platform, kind).contains(integration) <==> is_granted(
                platform,
                kind,
                integration,
            ),
{
    lemma_integration_set_explicit(platform, kind);
    let set = integration_set(platform, kind);
    assert forall|integration: Integration| is_granted(platform, kind, integration) implies set.contains(
        integration,
    ) by {
        match integration {
            Integration::Dialog => assert(set[0] == integration),
            Integration::Opener => assert(set[1] == integration),
            Integration::Filesystem => assert(set[2] == integration),
            Integration::Logging => assert(set[3] == integration),
            Integration::KeyValueStore => assert(set[4] == integration),
            Integration::SecureStorage => assert(set[5] == integration),
            Integration::Biometric => assert(set[6] == integration),
            Integration::SafeAreaInsets => assert(set[7] == integration),
            Integration::AndroidFilesystem => {
                if platform == PlatformClass::Mobile {
                    assert(set[8] == integration);
                } else {
                    assert(set[6] == integration);
                }
            },
            Integration::Notification => {
                assert(set[set.len() - 1] == integration);
            },
        }
    }
}

/// No integration is attached twice.
pub proof fn lemma_integration_set_distinct(platform: PlatformClass, kind: Option<MobileOSKind>)
    ensures
        integration_set(platform, kind).no_duplicates(),
{
    lemma_integration_set_explicit(platform, kind);
}

/// The base integrations are the first six of every platform's set, so they
/// are a subset of it whatever the platform.
pub proof fn lemma_base_is_prefix(platform: PlatformClass, kind: Option<MobileOSKind>)
    ensures
        base_integrations().len() == 6,
        base_integrations().is_prefix_of(integration_set(platform, kind)),
        forall|integration: Integration|
            base_integrations().contains(integration) ==> integration_set(platform, kind).contains(
                integration,
            ),
{
    let set = integration_set(platform, kind);
    lemma_integration_set_explicit(platform, kind);
    assert(base_integrations() =~= set.subrange(0, 6));
    assert forall|integration: Integration| base_integrations().contains(integration) implies set.contains(
        integration,
    ) by {
        let i = choose|i: int| 0 <= i < 6 && base_integrations()[i] == integration;
        assert(set[i] == integration);
    }
}

/// Composition is a function of its inputs: equal inputs give equal ordered
/// sets, and no set is empty.
pub proof fn lemma_compose_deterministic(
    platform_a: PlatformClass,
    kind_a: Option<MobileOSKind>,
    platform_b: PlatformClass,
    kind_b: Option<MobileOSKind>,
)
    requires
        platform_a == platform_b,
        kind_a == kind_b,
    ensures
        integration_set(platform_a, kind_a) == integration_set(platform_b, kind_b),
        integration_set(platform_a, kind_a).len() > 0,
{
    lemma_integration_set_explicit(platform_a, kind_a);
}

} // verus!
