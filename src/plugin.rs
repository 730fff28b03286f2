use vstd::prelude::*;

verus! {

/// A capability plugin attached to the application host at startup.
#[derive(Clone, Copy, Debug, PartialEq, Eq, Structural)]
pub enum Plugin {
    /// Checks for and installs software updates.
    Updater,
    /// Process lifecycle control (exit, restart).
    Process,
    /// Native file and message dialogs.
    Dialog,
    /// Shell and child-process invocation.
    Shell,
    /// Opens URLs and files with the system's default handler.
    Opener,
}

/// How many plugins the application registers.
pub const PLUGIN_COUNT: usize = 5;

/// The plugins, in the order in which they are registered.
pub open spec fn plugin_order() -> Seq<Plugin> {
    seq![Plugin::Updater, Plugin::Process, Plugin::Dialog, Plugin::Shell, Plugin::Opener]
}

/// The plugin registered in position `i`.
pub fn plugin_at(i: usize) -> (r: Plugin)
    requires
        i < PLUGIN_COUNT,
    ensures
        r == plugin_order()[i as int],
{
    if i == 0 {
        Plugin::Updater
    } else if i == 1 {
        Plugin::Process
    } else if i == 2 {
        Plugin::Dialog
    } else if i == 3 {
        Plugin::Shell
    } else {
        Plugin::Opener
    }
}

} // verus!
