//! Actions consumed by the stores in [`crate::stores`].

use vstd::prelude::*;

verus! {

/// Actions related to [`crate::stores::known_hosts_store::KnownHostsStore`].
#[derive(Clone, Copy, PartialEq, Eq, Structural, Debug)]
pub enum KnownHostsAction {
    /// Issues an update of the known-hosts store.
    LoadKnownHosts,
}

/// Actions related to [`crate::stores::app_state_store::AppStateStore`].
#[derive(Clone, Copy, PartialEq, Eq, Structural, Debug)]
pub enum AppStateAction {
    /// Makes the store set the current screen to the exiting one.
    Exit,
    /// Makes the application end.
    StopApp,
}

/// Every action a dispatcher can route to a store.
#[derive(Clone, Copy, PartialEq, Eq, Structural, Debug)]
pub enum Action {
    KnownHostsAction(KnownHostsAction),
    AppStateAction(AppStateAction),
}

} // verus!
