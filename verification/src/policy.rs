//! The activation policy of the application, by platform.

use vstd::prelude::*;

verus! {

/// The operating system the shell runs on, as far as startup depends on it.
#[derive(Clone, Copy, Debug, PartialEq, Eq, Structural)]
pub enum Platform {
    /// macOS, the one system on which an application has an activation policy.
    MacOs,
    /// Any other operating system.
    Other,
}

/// How the application presents itself to the window server on macOS.
#[derive(Clone, Copy, Debug, PartialEq, Eq, Structural)]
pub enum ActivationPolicy {
    /// An ordinary application: it appears in the Dock and may have a menu bar.
    Regular,
    /// An accessory: no Dock icon and no menu bar, but it may still be
    /// activated and show windows.
    Accessory,
    /// The application cannot be activated and shows no windows.
    Prohibited,
}

/// The policy that the shell sets on `platform` during setup, or `None` where
/// it sets none: the shell is an accessory on macOS, and leaves every other
/// platform as the host framework made it.
pub open spec fn policy_on(platform: Platform) -> Option<ActivationPolicy> {
    match platform {
        Platform::MacOs => Some(ActivationPolicy::Accessory),
        Platform::Other => None,
    }
}

/// Decides the activation policy to set during setup on `platform`.
pub fn activation_policy_for(platform: Platform) -> (policy: Option<ActivationPolicy>)
    ensures
        policy == policy_on(platform),
{
    match platform {
        Platform::MacOs => Some(ActivationPolicy::Accessory),
        Platform::Other => None,
    }
}

} // verus!
