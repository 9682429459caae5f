//! Store for the cached known-hosts entries.
//!
//! The store itself cannot reach the filesystem: whoever triggers a load
//! reads the known-hosts files first and hands the entries in as plain
//! values.

use vstd::prelude::*;

use crate::actions::KnownHostsAction;

verus! {

/// Caches the host names read from the known-hosts files.
pub struct KnownHostsStore {
    known_hosts: Vec<String>,
}

impl Default for KnownHostsStore {
    /// A fresh store caches no entries.
    fn default() -> (r: Self)
        ensures
            r.hosts() == Seq::<String>::empty(),
    {
        KnownHostsStore { known_hosts: Vec::new() }
    }
}

impl KnownHostsStore {
    /// The cached entries, as the contracts speak of them.
    pub closed spec fn hosts(&self) -> Seq<String> {
        self.known_hosts@
    }

    /// The cached entries.
    pub fn get_known_hosts(&self) -> (r: &Vec<String>)
        ensures
            r@ == self.hosts(),
    {
        &self.known_hosts
    }

    /// Applies an action. `LoadKnownHosts` replaces the cached entries with
    /// the ones the caller read from the known-hosts files.
    pub fn update(&mut self, action: KnownHostsAction, known_hosts: Vec<String>) -> (r: Result<
        (),
        String,
    >)
        ensures
            r is Ok,
            action == KnownHostsAction::LoadKnownHosts ==> final(self).hosts()
                == known_hosts@,
    {
        match action {
            KnownHostsAction::LoadKnownHosts => {
                self.known_hosts = known_hosts;
            },
        }
        Ok(())
    }
}

} // verus!
