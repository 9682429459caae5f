//! State of the known-hosts list section: the entries, the selection and
//! the focus flag.

use vstd::prelude::*;

verus! {

/// Mathematical image of a [`KnownHostsListState`].
#[verifier::ext_equal]
pub struct KnownHostsV {
    pub items: Seq<String>,
    pub selected: Option<usize>,
    pub has_focus: bool,
}

impl KnownHostsV {
    /// The starting state of the section: focused and empty.
    pub open spec fn init() -> KnownHostsV {
        KnownHostsV { items: Seq::empty(), selected: None, has_focus: true }
    }

    /// The state after moving the selection one entry down: an absent
    /// selection lands on the first entry, the last entry stays selected.
    pub open spec fn next_item(self) -> KnownHostsV {
        match self.selected {
            Option::None => if self.items.len() > 0 {
                KnownHostsV { selected: Some(0usize), ..self }
            } else {
                self
            },
            Option::Some(idx) => if idx + 1 < self.items.len() {
                KnownHostsV { selected: Some((idx + 1) as usize), ..self }
            } else {
                self
            },
        }
    }

    /// The state after moving the selection one entry up: an absent
    /// selection lands on the first entry, the first entry stays selected.
    pub open spec fn prev_item(self) -> KnownHostsV {
        match self.selected {
            Option::None => if self.items.len() > 0 {
                KnownHostsV { selected: Some(0usize), ..self }
            } else {
                self
            },
            Option::Some(idx) => if idx > 0 {
                KnownHostsV { selected: Some((idx - 1) as usize), ..self }
            } else {
                self
            },
        }
    }

    /// The state after taking the focus: the first entry is selected when
    /// there is one.
    pub open spec fn focus(self) -> KnownHostsV {
        KnownHostsV {
            has_focus: true,
            selected: if self.items.len() > 0 {
                Some(0usize)
            } else {
                self.selected
            },
            ..self
        }
    }

    /// The state after losing the focus: no entry stays selected.
    pub open spec fn unfocus(self) -> KnownHostsV {
        KnownHostsV { has_focus: false, selected: None, ..self }
    }

    /// The state after loading fresh entries: they replace the old ones and
    /// the first is selected when there is one.
    pub open spec fn load(self, items: Seq<String>) -> KnownHostsV {
        KnownHostsV {
            items,
            selected: if items.len() > 0 {
                Some(0usize)
            } else {
                self.selected
            },
            ..self
        }
    }
}

/// The known-hosts list: its entries, which one is selected, and whether
/// the section holds the focus.
pub struct KnownHostsListState {
    items: Vec<String>,
    selected_item_idx: Option<usize>,
    has_focus: bool,
}

impl View for KnownHostsListState {
    type V = KnownHostsV;

    closed spec fn view(&self) -> KnownHostsV {
        KnownHostsV {
            items: self.items@,
            selected: self.selected_item_idx,
            has_focus: self.has_focus,
        }
    }
}

impl Default for KnownHostsListState {
    /// The section starts focused and empty; whoever reads the known-hosts
    /// files loads the entries.
    fn default() -> (r: Self)
        ensures
            r@ == KnownHostsV::init(),
    {
        KnownHostsListState { items: Vec::new(), selected_item_idx: None, has_focus: true }
    }
}

impl KnownHostsListState {
    /// Replaces the entries with the host names the caller read from the
    /// known-hosts files.
    pub fn load_known_hosts(&mut self, known_hosts: Vec<String>)
        ensures
            final(self)@ == old(self)@.load(known_hosts@),
    {
        self.items = known_hosts;
        if self.items.len() > 0 {
            self.selected_item_idx = Some(0);
        }
    }

    /// Takes the focus, selecting the first entry when there is one.
    pub fn focus(&mut self)
        ensures
            final(self)@ == old(self)@.focus(),
    {
        self.has_focus = true;
        if self.items.len() > 0 {
            self.selected_item_idx = Some(0);
        }
    }

    /// Gives the focus up and clears the selection.
    pub fn unfocus(&mut self)
        ensures
            final(self)@ == old(self)@.unfocus(),
    {
        self.has_focus = false;
        self.selected_item_idx = None;
    }

    /// Whether the section holds the focus.
    pub fn has_focus(&self) -> (r: bool)
        ensures
            r == self@.has_focus,
    {
        self.has_focus
    }

    /// The entries currently shown.
    pub fn get_items(&self) -> (r: &Vec<String>)
        ensures
            r@ == self@.items,
    {
        &self.items
    }

    /// Which entry is selected, if any.
    pub fn get_selected_item_idx(&self) -> (r: Option<usize>)
        ensures
            r == self@.selected,
    {
        self.selected_item_idx
    }

    /// Moves the selection one entry down.
    pub fn next_item(&mut self)
        ensures
            final(self)@ == old(self)@.next_item(),
    {
        match self.selected_item_idx {
            Option::None => {
                if self.items.len() > 0 {
                    self.selected_item_idx = Some(0);
                }
            },
            Option::Some(idx) => {
                if idx < self.items.len() && idx + 1 < self.items.len() {
                    self.selected_item_idx = Some(idx + 1);
                }
            },
        }
    }

    /// Moves the selection one entry up.
    pub fn prev_item(&mut self)
        ensures
            final(self)@ == old(self)@.prev_item(),
    {
        match self.selected_item_idx {
            Option::None => {
                if self.items.len() > 0 {
                    self.selected_item_idx = Some(0);
                }
            },
            Option::Some(idx) => {
                if idx > 0 {
                    self.selected_item_idx = Some(idx - 1);
                }
            },
        }
    }
}

} // verus!
