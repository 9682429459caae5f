//! Routes actions to the store each one belongs to.

use vstd::prelude::*;

use crate::actions::{Action, AppStateAction, KnownHostsAction};
use crate::stores::app_state_store::{AppStateStore, CurrentScreen};
use crate::stores::known_hosts_store::KnownHostsStore;

verus! {

/// Owns one instance of every store and forwards each action to its store.
pub struct Dispatcher {
    app_state_store: AppStateStore,
    known_hosts_store: KnownHostsStore,
}

impl Dispatcher {
    /// The cached known-hosts entries, as the contracts speak of them.
    pub closed spec fn known_hosts(&self) -> Seq<String> {
        self.known_hosts_store.hosts()
    }

    /// The current screen of the application-state store.
    pub closed spec fn screen(&self) -> CurrentScreen {
        self.app_state_store.spec_screen()
    }

    /// The running flag of the application-state store.
    pub closed spec fn running(&self) -> bool {
        self.app_state_store.spec_running()
    }

    /// A dispatcher over freshly initialised stores.
    pub fn default() -> (r: Self)
        ensures
            r.known_hosts() == Seq::<String>::empty(),
            r.screen() == CurrentScreen::Main,
            r.running(),
    {
        Self {
            app_state_store: AppStateStore::default(),
            known_hosts_store: KnownHostsStore::default(),
        }
    }

    /// Routes the action: exactly the addressed store changes, as its own
    /// update says. `known_hosts` carries the entries read from the
    /// known-hosts files; only the load action consumes them, since no
    /// store can reach the filesystem itself.
    pub fn dispatch(&mut self, action: Action, known_hosts: Vec<String>) -> (r: Result<
        (),
        String,
    >)
        ensures
            r is Ok,
            action == Action::KnownHostsAction(KnownHostsAction::LoadKnownHosts)
                ==> final(self).known_hosts() == known_hosts@,
            action matches Action::KnownHostsAction(_)
                ==> final(self).screen() == old(self).screen(),
            action matches Action::KnownHostsAction(_)
                ==> final(self).running() == old(self).running(),
            action == Action::AppStateAction(AppStateAction::Exit)
                ==> final(self).screen() == CurrentScreen::Exiting,
            action == Action::AppStateAction(AppStateAction::Exit)
                ==> final(self).running() == old(self).running(),
            action == Action::AppStateAction(AppStateAction::StopApp) ==> !final(self).running(),
            action == Action::AppStateAction(AppStateAction::StopApp)
                ==> final(self).screen() == old(self).screen(),
            action matches Action::AppStateAction(_)
                ==> final(self).known_hosts() == old(self).known_hosts(),
    {
        match action {
            Action::AppStateAction(app_state_action) => self.app_state_store.update(
                app_state_action,
            ),
            Action::KnownHostsAction(known_hosts_action) => self.known_hosts_store.update(
                known_hosts_action,
                known_hosts,
            ),
        }
    }
}

} // verus!
