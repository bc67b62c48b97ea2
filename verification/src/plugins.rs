//! The plugin bootstrap: which capability plugins the shell attaches to the
//! host runtime's builder, in which order, and how the logging plugin is
//! configured.

use vstd::prelude::*;

verus! {

/// A capability plugin attached to the application builder at startup.
#[derive(Clone, Copy, PartialEq, Eq, Structural, Debug)]
pub enum Plugin {
    /// Logging with the three targets of `log_targets`.
    Log,
    /// Filesystem access with default permissions.
    Filesystem,
    /// Window-geometry persistence with default behavior.
    WindowState,
    /// Single-instance enforcement; desktop targets only.
    SingleInstance,
    /// Invoking external URL and file handlers.
    Opener,
}

/// An output target of the logging plugin.
pub enum LogTarget {
    /// A rotating file of this name in the platform log directory.
    LogDir { file_name: String },
    /// Standard output.
    Stdout,
    /// The embedded UI's developer console.
    Webview,
}

/// Name of the rotating log file in the platform log directory.
pub open spec fn spec_log_file_name() -> Seq<char> {
    "bubbly_quest"@
}

/// The fixed attachment order: log, filesystem, window-state, then — on
/// desktop targets only — single-instance, then opener.
pub open spec fn spec_plugin_order(desktop: bool) -> Seq<Plugin> {
    if desktop {
        seq![
            Plugin::Log,
            Plugin::Filesystem,
            Plugin::WindowState,
            Plugin::SingleInstance,
            Plugin::Opener,
        ]
    } else {
        seq![Plugin::Log, Plugin::Filesystem, Plugin::WindowState, Plugin::Opener]
    }
}

/// The plugins to attach, in attachment order, for a desktop or a mobile
/// build. The order is fixed by `spec_plugin_order`, so it is the same on
/// every run.
pub fn plugin_order(desktop: bool) -> (order: Vec<Plugin>)
    ensures
        order@ == spec_plugin_order(desktop),
{
    let mut order: Vec<Plugin> = Vec::new();
    order.push(Plugin::Log);
    order.push(Plugin::Filesystem);
    order.push(Plugin::WindowState);
    if desktop {
        order.push(Plugin::SingleInstance);
    }
    order.push(Plugin::Opener);
    proof {
        assert(order@ =~= spec_plugin_order(desktop));
    }
    order
}

/// The logging plugin's three simultaneous output targets, in order: the
/// rotating log-directory file named by `spec_log_file_name`, standard
/// output, and the embedded UI's console.
pub fn log_targets() -> (targets: Vec<LogTarget>)
    ensures
        targets@.len() == 3,
        (targets@[0] matches LogTarget::LogDir { file_name } && file_name@
            == spec_log_file_name()),
        targets@[1] is Stdout,
        targets@[2] is Webview,
{
    let mut targets: Vec<LogTarget> = Vec::new();
    targets.push(LogTarget::LogDir { file_name: String::from_str("bubbly_quest") });
    targets.push(LogTarget::Stdout);
    targets.push(LogTarget::Webview);
    targets
}

/// The single-instance capability is entirely absent on mobile targets: no
/// position of the mobile attachment order holds it.
pub proof fn lemma_single_instance_absent_on_mobile()
    ensures
        forall|i: int|
            0 <= i < spec_plugin_order(false).len() ==> spec_plugin_order(false)[i]
                != Plugin::SingleInstance,
{
}

/// On desktop targets the single-instance plugin is attached exactly once,
/// in the fourth position.
pub proof fn lemma_single_instance_once_on_desktop()
    ensures
        spec_plugin_order(true)[3] == Plugin::SingleInstance,
        forall|i: int|
            0 <= i < spec_plugin_order(true).len() && i != 3 ==> spec_plugin_order(true)[i]
                != Plugin::SingleInstance,
{
}

/// The two attachment orders agree but for the single-instance plugin: the
/// mobile order is the desktop order with its fourth element removed.
pub proof fn lemma_mobile_order_is_desktop_without_single_instance()
    ensures
        spec_plugin_order(false) == spec_plugin_order(true).remove(3),
{
    assert(spec_plugin_order(false) =~= spec_plugin_order(true).remove(3));
}

} // verus!
