//! The plugins that the shell registers with the host framework.

use vstd::prelude::*;

verus! {

/// A plugin of the host framework that the shell uses.
#[derive(Clone, Copy, Debug, PartialEq, Eq, Structural)]
pub enum Plugin {
    /// Listens for keyboard shortcuts system-wide, whichever application has
    /// the focus.
    GlobalShortcut,
    /// Opens URLs and files with the program that the system associates with
    /// them.
    Opener,
}

/// The plugins in the order of their registration: the shortcut listener
/// first, the opener second, each once.
pub open spec fn registration_order() -> Seq<Plugin> {
    seq![Plugin::GlobalShortcut, Plugin::Opener]
}

/// Lists the plugins to register, first to last.
pub fn registered_plugins() -> (plugins: Vec<Plugin>)
    ensures
        plugins@ == registration_order(),
{
    let mut plugins: Vec<Plugin> = Vec::new();
    plugins.push(Plugin::GlobalShortcut);
    plugins.push(Plugin::Opener);
    plugins
}

} // verus!
