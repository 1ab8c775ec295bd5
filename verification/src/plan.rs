//! The startup plan: what the host is configured with before its event loop
//! starts.

use vstd::prelude::*;

use crate::plugins::{registered_plugins, registration_order, Plugin};
use crate::policy::{activation_policy_for, policy_on, ActivationPolicy, Platform};

verus! {

/// What the shell configures, once, before it hands control to the event loop.
///
/// The host carries a plan out in this order: it sets the activation policy
/// during setup where there is one, registers the plugins first to last, and
/// starts the event loop.
#[derive(Debug, PartialEq, Eq)]
pub struct StartupPlan {
    /// The activation policy to set during setup, if any.
    pub activation_policy: Option<ActivationPolicy>,
    /// The plugins to register, in this order.
    pub plugins: Vec<Plugin>,
}

/// A startup plan as a mathematical value.
pub struct StartupPlanView {
    pub activation_policy: Option<ActivationPolicy>,
    pub plugins: Seq<Plugin>,
}

impl View for StartupPlan {
    type V = StartupPlanView;

    open spec fn view(&self) -> StartupPlanView {
        StartupPlanView { activation_policy: self.activation_policy, plugins: self.plugins@ }
    }
}

/// The plan for `platform`: the platform's activation policy, and the same
/// plugins in the same order everywhere.
pub open spec fn plan_on(platform: Platform) -> StartupPlanView {
    StartupPlanView { activation_policy: policy_on(platform), plugins: registration_order() }
}

/// Makes the startup plan for `platform`.
pub fn startup_plan(platform: Platform) -> (plan: StartupPlan)
    ensures
        plan@ == plan_on(platform),
{
    StartupPlan {
        activation_policy: activation_policy_for(platform),
        plugins: registered_plugins(),
    }
}

} // verus!
