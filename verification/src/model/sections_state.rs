//! The states of the three sections and the focus hand-over between them.

pub mod client_config_state;
pub mod known_hosts_list_state;
pub mod public_keys_list_state;

use vstd::prelude::*;

use crate::ui::Section;

use self::client_config_state::{ClientConfigState, ClientConfigV};
use self::known_hosts_list_state::{KnownHostsListState, KnownHostsV};
use self::public_keys_list_state::{PublicKeysListState, PublicKeysV};

verus! {

/// Mathematical image of a [`SectionsStates`].
#[verifier::ext_equal]
pub struct SectionsV {
    pub known_hosts: KnownHostsV,
    pub public_keys: PublicKeysV,
    pub client_config: ClientConfigV,
}

impl SectionsV {
    /// The starting state of the three sections: the known-hosts list
    /// holds the focus.
    pub open spec fn init() -> SectionsV {
        SectionsV {
            known_hosts: KnownHostsV::init(),
            public_keys: PublicKeysV::init(),
            client_config: ClientConfigV::init(),
        }
    }

    /// Which section the flags say is focused: the first focused one in
    /// the fixed order, or the known-hosts list when none is.
    pub open spec fn focused_section(self) -> Section {
        if self.known_hosts.has_focus {
            Section::KnownHostsList
        } else if self.public_keys.has_focus {
            Section::PublicKeysList
        } else if self.client_config.has_focus {
            Section::ClientConfig
        } else {
            Section::KnownHostsList
        }
    }

    /// Whether the given section holds the focus.
    pub open spec fn has_focus_on(self, section: Section) -> bool {
        match section {
            Section::KnownHostsList => self.known_hosts.has_focus,
            Section::PublicKeysList => self.public_keys.has_focus,
            Section::ClientConfig => self.client_config.has_focus,
        }
    }

    /// The state after handing the focus to `section`: exactly that
    /// section is focused afterwards.
    pub open spec fn set_focus(self, section: Section) -> SectionsV {
        match section {
            Section::KnownHostsList => SectionsV {
                known_hosts: self.known_hosts.focus(),
                public_keys: self.public_keys.unfocus(),
                client_config: ClientConfigV { has_focus: false, ..self.client_config },
            },
            Section::PublicKeysList => SectionsV {
                known_hosts: self.known_hosts.unfocus(),
                public_keys: self.public_keys.focus(),
                client_config: ClientConfigV { has_focus: false, ..self.client_config },
            },
            Section::ClientConfig => SectionsV {
                known_hosts: self.known_hosts.unfocus(),
                public_keys: self.public_keys.unfocus(),
                client_config: ClientConfigV { has_focus: true, ..self.client_config },
            },
        }
    }

    /// The section that follows the focused one in the fixed order; the
    /// last section stays.
    pub open spec fn next_section(self) -> Section {
        if self.known_hosts.has_focus {
            Section::PublicKeysList
        } else if self.public_keys.has_focus {
            Section::ClientConfig
        } else if self.client_config.has_focus {
            Section::ClientConfig
        } else {
            Section::KnownHostsList
        }
    }

    /// The state after moving the focus to the next section; when the last
    /// section is focused, or none is, nothing changes.
    pub open spec fn move_next(self) -> SectionsV {
        if self.known_hosts.has_focus {
            self.set_focus(Section::PublicKeysList)
        } else if self.public_keys.has_focus {
            self.set_focus(Section::ClientConfig)
        } else {
            self
        }
    }

    /// The section that precedes the focused one in the fixed order; the
    /// first section stays.
    pub open spec fn prev_section(self) -> Section {
        if self.known_hosts.has_focus {
            Section::KnownHostsList
        } else if self.public_keys.has_focus {
            Section::KnownHostsList
        } else if self.client_config.has_focus {
            Section::PublicKeysList
        } else {
            Section::KnownHostsList
        }
    }

    /// The state after moving the focus to the previous section; when the
    /// first section is focused, or none is, nothing changes.
    pub open spec fn move_prev(self) -> SectionsV {
        if self.known_hosts.has_focus {
            self
        } else if self.public_keys.has_focus {
            self.set_focus(Section::KnownHostsList)
        } else if self.client_config.has_focus {
            self.set_focus(Section::PublicKeysList)
        } else {
            self
        }
    }
}

/// The three section states, of which exactly one holds the focus while
/// the application is well-formed.
pub struct SectionsStates {
    known_hosts_list_state: KnownHostsListState,
    public_keys_list_state: PublicKeysListState,
    client_config_state: ClientConfigState,
}

impl View for SectionsStates {
    type V = SectionsV;

    closed spec fn view(&self) -> SectionsV {
        SectionsV {
            known_hosts: self.known_hosts_list_state@,
            public_keys: self.public_keys_list_state@,
            client_config: self.client_config_state@,
        }
    }
}

impl Default for SectionsStates {
    /// The three sections in their starting states: the known-hosts list
    /// holds the focus.
    fn default() -> (r: Self)
        ensures
            r@ == SectionsV::init(),
            r@.focused_section() == Section::KnownHostsList,
            r@.has_focus_on(Section::KnownHostsList),
            !r@.has_focus_on(Section::PublicKeysList),
            !r@.has_focus_on(Section::ClientConfig),
    {
        SectionsStates {
            known_hosts_list_state: KnownHostsListState::default(),
            public_keys_list_state: PublicKeysListState::default(),
            client_config_state: ClientConfigState::default(),
        }
    }
}

impl SectionsStates {
    /// Moves the focus to the next section in the order and returns it;
    /// on the last section the focus stays where it is.
    pub fn next_section(&mut self) -> (r: Section)
        ensures
            final(self)@ == old(self)@.move_next(),
            r == old(self)@.next_section(),
    {
        if self.known_hosts_list_state.has_focus() {
            self.set_focus(Section::PublicKeysList);
            Section::PublicKeysList
        } else if self.public_keys_list_state.has_focus() {
            self.set_focus(Section::ClientConfig);
            Section::ClientConfig
        } else if self.client_config_state.has_focus() {
            Section::ClientConfig
        } else {
            Section::KnownHostsList
        }
    }

    /// Moves the focus to the previous section in the order and returns
    /// it; on the first section the focus stays where it is.
    pub fn prev_section(&mut self) -> (r: Section)
        ensures
            final(self)@ == old(self)@.move_prev(),
            r == old(self)@.prev_section(),
    {
        if self.known_hosts_list_state.has_focus() {
            Section::KnownHostsList
        } else if self.public_keys_list_state.has_focus() {
            self.set_focus(Section::KnownHostsList);
            Section::KnownHostsList
        } else if self.client_config_state.has_focus() {
            self.set_focus(Section::PublicKeysList);
            Section::PublicKeysList
        } else {
            Section::KnownHostsList
        }
    }

    /// Hands the focus to the given section and takes it from the others.
    pub fn set_focus(&mut self, section: Section)
        ensures
            final(self)@ == old(self)@.set_focus(section),
    {
        match section {
            Section::KnownHostsList => {
                self.public_keys_list_state.unfocus();
                self.client_config_state.unfocus();
                self.known_hosts_list_state.focus();
            },
            Section::PublicKeysList => {
                self.known_hosts_list_state.unfocus();
                self.client_config_state.unfocus();
                self.public_keys_list_state.focus();
            },
            Section::ClientConfig => {
                self.known_hosts_list_state.unfocus();
                self.public_keys_list_state.unfocus();
                self.client_config_state.focus();
            },
        }
    }

    /// Whether the given section holds the focus.
    pub fn has_focus_on(&self, section: Section) -> (r: bool)
        ensures
            r == self@.has_focus_on(section),
    {
        match section {
            Section::KnownHostsList => self.known_hosts_list_state.has_focus(),
            Section::PublicKeysList => self.public_keys_list_state.has_focus(),
            Section::ClientConfig => self.client_config_state.has_focus(),
        }
    }

    /// The known-hosts list state.
    pub fn get_known_hosts_list_state(&self) -> (r: &KnownHostsListState)
        ensures
            r@ == self@.known_hosts,
    {
        &self.known_hosts_list_state
    }

    /// The public-keys list state.
    pub fn get_public_keys_list_state(&self) -> (r: &PublicKeysListState)
        ensures
            r@ == self@.public_keys,
    {
        &self.public_keys_list_state
    }

    /// The client-configuration state.
    pub fn get_client_config_state(&self) -> (r: &ClientConfigState)
        ensures
            r@ == self@.client_config,
    {
        &self.client_config_state
    }

    /// The known-hosts list state, for writing.
    pub fn get_known_hosts_list_state_mut(&mut self) -> (r: &mut KnownHostsListState)
        ensures
            (*r)@ == old(self)@.known_hosts,
            final(self)@ == (SectionsV { known_hosts: (*final(r))@, ..old(self)@ }),
    {
        &mut self.known_hosts_list_state
    }

    /// The public-keys list state, for writing.
    pub fn get_public_keys_list_state_mut(&mut self) -> (r: &mut PublicKeysListState)
        ensures
            (*r)@ == old(self)@.public_keys,
            final(self)@ == (SectionsV { public_keys: (*final(r))@, ..old(self)@ }),
    {
        &mut self.public_keys_list_state
    }

    /// The client-configuration state, for writing.
    pub fn get_client_config_state_mut(&mut self) -> (r: &mut ClientConfigState)
        ensures
            (*r)@ == old(self)@.client_config,
            final(self)@ == (SectionsV { client_config: (*final(r))@, ..old(self)@ }),
    {
        &mut self.client_config_state
    }
}

} // verus!
