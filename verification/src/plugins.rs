//! The fixed set of capability plugins and their registration order.

use vstd::prelude::*;

verus! {

/// The capability plugins the application shell is given.  Each one grants
/// a single operating-system ability: spawning shell commands, handling
/// deep links, checking for updates, showing native dialogs, and
/// controlling processes.
#[derive(Clone, Copy, Debug, PartialEq, Eq, Structural)]
pub enum Plugin {
    Shell,
    DeepLink,
    Updater,
    Dialog,
    Process,
}

/// The one registration order the bootstrapper ever uses.
pub open spec fn plugin_order_spec() -> Seq<Plugin> {
    seq![
        Plugin::Shell,
        Plugin::DeepLink,
        Plugin::Updater,
        Plugin::Dialog,
        Plugin::Process,
    ]
}

/// The plugins in the order in which they are registered: shell execution
/// first, then deep links, the updater, dialogs, and process control.
pub fn plugin_order() -> (order: Vec<Plugin>)
    ensures
        order@ == plugin_order_spec(),
{
    let order: Vec<Plugin> = vec![
        Plugin::Shell,
        Plugin::DeepLink,
        Plugin::Updater,
        Plugin::Dialog,
        Plugin::Process,
    ];
    proof {
        assert(order@ =~= plugin_order_spec());
    }
    order
}

} // verus!
