//! The single-instance focus handler: what the shell does when the host
//! runtime reports that a second process launch was detected. Desktop
//! targets only; on mobile the capability is never registered (see
//! `plugins::spec_plugin_order`).

use vstd::prelude::*;

verus! {

/// Label of the application's main window.
pub open spec fn spec_main_window_label() -> Seq<char> {
    "main"@
}

/// The label under which the main window is registered with the host
/// runtime.
pub fn main_window_label() -> (label: &'static str)
    ensures
        label@ == spec_main_window_label(),
{
    "main"
}

/// The handler's response to a second-launch notification.
pub enum SecondInstanceAction {
    /// Request input focus for the window with this label, exactly once. A
    /// failure of the focus request itself is discarded, neither logged nor
    /// propagated.
    FocusWindow { label: String },
    /// The main window is missing: an unrecoverable invariant violation, and
    /// the process aborts with a message.
    FatalMissingWindow,
}

/// Decides the handler's response to a second-launch notification.
///
/// The second process's arguments and working directory are carried by the
/// notification but ignored: the response depends on whether the main window
/// is present, and on nothing else. When it is present, the one action is a
/// focus request against the window labelled by `spec_main_window_label`;
/// when it is absent, the handler aborts.
pub fn second_instance_action(
    _args: &Vec<String>,
    _cwd: &str,
    main_window_present: bool,
) -> (action: SecondInstanceAction)
    ensures
        main_window_present ==> (action matches SecondInstanceAction::FocusWindow { label }
            && label@ == spec_main_window_label()),
        !main_window_present ==> action is FatalMissingWindow,
{
    if main_window_present {
        SecondInstanceAction::FocusWindow { label: String::from_str("main") }
    } else {
        SecondInstanceAction::FatalMissingWindow
    }
}

} // verus!
