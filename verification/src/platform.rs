//! The platform descriptor: which OS family hosts the process.

use vstd::prelude::*;

verus! {

/// The broad class of the hosting platform.
#[derive(Clone, Copy, Debug, PartialEq, Eq, Structural)]
pub enum PlatformClass {
    Desktop,
    Mobile,
}

/// The specific mobile OS, where the platform is a mobile one.
#[derive(Clone, Copy, Debug, PartialEq, Eq, Structural)]
pub enum MobileOSKind {
    Android,
    IOS,
}

/// A supported build target. Each profile fixes both the platform class and
/// the mobile OS kind, so the two can never disagree.
#[derive(Clone, Copy, Debug, PartialEq, Eq, Structural)]
pub enum TargetProfile {
    Desktop,
    Android,
    IOS,
}

impl TargetProfile {
    /// The platform class of this profile.
    pub open spec fn class(self) -> PlatformClass {
        match self {
            TargetProfile::Desktop => PlatformClass::Desktop,
            TargetProfile::Android => PlatformClass::Mobile,
            TargetProfile::IOS => PlatformClass::Mobile,
        }
    }

    /// The mobile OS of this profile, absent on desktop.
    pub open spec fn mobile_os(self) -> Option<MobileOSKind> {
        match self {
            TargetProfile::Desktop => None,
            TargetProfile::Android => Some(MobileOSKind::Android),
            TargetProfile::IOS => Some(MobileOSKind::IOS),
        }
    }

    /// Classifies the target as desktop or mobile.
    pub fn classify(self) -> (class: PlatformClass)
        ensures
            class == self.class(),
    {
        match self {
            TargetProfile::Desktop => PlatformClass::Desktop,
            TargetProfile::Android => PlatformClass::Mobile,
            TargetProfile::IOS => PlatformClass::Mobile,
        }
    }

    /// Refines a mobile target to its OS; `None` on desktop.
    pub fn mobile_kind(self) -> (kind: Option<MobileOSKind>)
        ensures
            kind == self.mobile_os(),
    {
        match self {
            TargetProfile::Desktop => None,
            TargetProfile::Android => Some(MobileOSKind::Android),
            TargetProfile::IOS => Some(MobileOSKind::IOS),
        }
    }
}

/// A profile has a mobile OS kind exactly when its class is mobile.
pub proof fn lemma_profile_consistent(profile: TargetProfile)
    ensures
        profile.mobile_os() is Some <==> profile.class() == PlatformClass::Mobile,
        profile.mobile_os() is None <==> profile.class() == PlatformClass::Desktop,
{
}

/// The device class reported to the application layer: `"mobile"` when a
/// mobile OS kind is present, `"desktop"` otherwise.
pub open spec fn device_type_text(kind: Option<MobileOSKind>) -> Seq<char> {
    if kind is Some {
        "mobile"@
    } else {
        "desktop"@
    }
}

/// Answers the device-class query. The answer depends on the platform
/// descriptor alone.
pub fn resolve_device_type(kind: Option<MobileOSKind>) -> (text: &'static str)
    ensures
        text@ == device_type_text(kind),
        text@ == "mobile"@ <==> kind is Some,
        text@ == "desktop"@ <==> kind is None,
{
    proof {
        lemma_device_types_differ();
    }
    match kind {
        Some(_) => "mobile",
        None => "desktop",
    }
}

/// The two device-class answers are different strings.
pub proof fn lemma_device_types_differ()
    ensures
        "mobile"@ != "desktop"@,
{
    reveal_strlit("mobile");
    reveal_strlit("desktop");
    assert("mobile"@.len() == 6);
    assert("desktop"@.len() == 7);
}

/// The query answers `"mobile"` exactly when a mobile OS kind is reported.
pub proof fn lemma_device_type_mobile_iff(kind: Option<MobileOSKind>)
    ensures
        device_type_text(kind) == "mobile"@ <==> kind is Some,
        device_type_text(kind) == "desktop"@ <==> kind is None,
{
    lemma_device_types_differ();
}

} // verus!
