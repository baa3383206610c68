//! The startup plan: everything that is decided once, before the host runs.

use vstd::prelude::*;
use crate::commands::{
    command_surface, lemma_entitled_surface_is_backed, registered_commands, surface_backed,
    Command,
};
use crate::integrations::{compose, integration_set, Integration};
use crate::logging::{flag_text, logging_config, sink_set, LogLevel, LoggingConfig};
use crate::platform::TargetProfile;

verus! {

/// The configuration handed once to host construction: the logging setup,
/// the integrations to attach in order, and the commands to register.
#[derive(Clone, Debug, PartialEq, Eq)]
pub struct StartupPlan {
    pub logging: LoggingConfig,
    pub integrations: Vec<Integration>,
    pub commands: Vec<Command>,
}

impl StartupPlan {
    /// Whether this is the plan of the given target and flag value.
    pub open spec fn is_plan_for(self, profile: TargetProfile, flag: Option<Seq<char>>) -> bool {
        &&& self.logging.level == LogLevel::Info
        &&& self.logging.sinks@ == sink_set(flag)
        &&& self.integrations@ == integration_set(profile.class(), profile.mobile_os())
        &&& self.commands@ == command_surface(profile.mobile_os())
    }
}

/// Assembles the startup plan of a build target from the value read for the
/// logging flag. Every registered command is backed by an attached
/// integration, so the plan needs no further check before the host starts.
pub fn plan_startup(profile: TargetProfile, webview_flag: Option<&str>) -> (plan: StartupPlan)
    ensures
        plan.is_plan_for(profile, flag_text(webview_flag)),
        surface_backed(plan.commands@, plan.integrations@),
{
    let logging = logging_config(webview_flag);
    let integrations = compose(profile.classify(), profile.mobile_kind());
    let commands = registered_commands(profile.mobile_kind());
    proof {
        lemma_entitled_surface_is_backed(profile.class(), profile.mobile_os());
    }
    StartupPlan { logging, integrations, commands }
}

} // verus!
