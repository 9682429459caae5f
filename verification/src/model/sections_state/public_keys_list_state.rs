//! State of the public-keys list section: the key files found in the SSH
//! directory, the selection, and the form for a new key.

use vstd::prelude::*;
use vstd::string::StrSliceExecFns;

use crate::commands::ssh_keygen::PublicKeyType;
use crate::utils::files;
use crate::utils::strings;

verus! {

/// Which text field of the new-key form holds the focus.
#[derive(Clone, Copy, PartialEq, Eq, Structural, Debug)]
pub enum NewPublicKeyFocus {
    Name,
    Comment,
}

impl Default for NewPublicKeyFocus {
    /// The form opens on the name field.
    fn default() -> (r: Self)
        ensures
            r == NewPublicKeyFocus::Name,
    {
        NewPublicKeyFocus::Name
    }
}

/// Mathematical image of a [`NewPublicKeyState`].
#[verifier::ext_equal]
pub struct NewKeyV {
    pub name: Seq<char>,
    pub key_type: PublicKeyType,
    pub comment: Seq<char>,
    pub focus: NewPublicKeyFocus,
    pub passphrase: Option<Seq<char>>,
    pub passphrase_check: Option<Seq<char>>,
}

impl NewKeyV {
    /// The starting state of the form: the suggested name, everything
    /// else empty, the name field focused.
    pub open spec fn init() -> NewKeyV {
        NewKeyV {
            name: "id_ed25519"@,
            key_type: PublicKeyType::ED25519,
            comment: Seq::empty(),
            focus: NewPublicKeyFocus::Name,
            passphrase: None,
            passphrase_check: None,
        }
    }

    /// The form after one character lands in the focused text field.
    pub open spec fn write_char(self, ch: char) -> NewKeyV {
        match self.focus {
            NewPublicKeyFocus::Name => NewKeyV { name: self.name.push(ch), ..self },
            NewPublicKeyFocus::Comment => NewKeyV { comment: self.comment.push(ch), ..self },
        }
    }

    /// The form after the focused text field loses its last character.
    pub open spec fn del_char(self) -> NewKeyV {
        match self.focus {
            NewPublicKeyFocus::Name => NewKeyV { name: strings::seq_del_char(self.name), ..self },
            NewPublicKeyFocus::Comment => NewKeyV {
                comment: strings::seq_del_char(self.comment),
                ..self
            },
        }
    }

    /// The form after the focused text field loses its trailing word.
    pub open spec fn del_word(self) -> NewKeyV {
        match self.focus {
            NewPublicKeyFocus::Name => NewKeyV { name: strings::spec_del_word(self.name), ..self },
            NewPublicKeyFocus::Comment => NewKeyV {
                comment: strings::spec_del_word(self.comment),
                ..self
            },
        }
    }

    /// The form with the focus moved to the other field.
    pub open spec fn toggled_focus(self) -> NewKeyV {
        NewKeyV {
            focus: match self.focus {
                NewPublicKeyFocus::Name => NewPublicKeyFocus::Comment,
                NewPublicKeyFocus::Comment => NewPublicKeyFocus::Name,
            },
            ..self
        }
    }

    /// The form after the passphrase draft loses its last character; an
    /// absent draft stays absent.
    pub open spec fn del_passphrase_char(self) -> NewKeyV {
        NewKeyV {
            passphrase: match self.passphrase {
                Option::None => None,
                Option::Some(p) => Some(strings::seq_del_char(p)),
            },
            ..self
        }
    }

    /// The form after the confirmation draft loses its last character; an
    /// absent draft stays absent.
    pub open spec fn del_check_char(self) -> NewKeyV {
        NewKeyV {
            passphrase_check: match self.passphrase_check {
                Option::None => None,
                Option::Some(p) => Some(strings::seq_del_char(p)),
            },
            ..self
        }
    }

    /// The form with both passphrase drafts cleared.
    pub open spec fn clean(self) -> NewKeyV {
        NewKeyV { passphrase: None, passphrase_check: None, ..self }
    }

    /// The form after one character lands in the passphrase draft: an
    /// absent draft starts with that character.
    pub open spec fn write_passphrase(self, ch: char) -> NewKeyV {
        NewKeyV {
            passphrase: match self.passphrase {
                Option::None => Some(seq![ch]),
                Option::Some(p) => Some(p.push(ch)),
            },
            ..self
        }
    }

    /// The form after one character lands in the confirmation draft.
    pub open spec fn write_passphrase_check(self, ch: char) -> NewKeyV {
        NewKeyV {
            passphrase_check: match self.passphrase_check {
                Option::None => Some(seq![ch]),
                Option::Some(p) => Some(p.push(ch)),
            },
            ..self
        }
    }
}

/// The form for a new public key: its file name, comment, focused field,
/// and the passphrase drafts of the current confirmation round-trip.
pub struct NewPublicKeyState {
    name: String,
    key_type: PublicKeyType,
    comment: String,
    current_focus: NewPublicKeyFocus,
    passphrase: Option<String>,
    passphrase_check: Option<String>,
}

/// The character sequence of an optional string.
pub open spec fn opt_view(o: Option<String>) -> Option<Seq<char>> {
    match o {
        Option::None => None,
        Option::Some(s) => Some(s@),
    }
}

impl View for NewPublicKeyState {
    type V = NewKeyV;

    closed spec fn view(&self) -> NewKeyV {
        NewKeyV {
            name: self.name@,
            key_type: self.key_type,
            comment: self.comment@,
            focus: self.current_focus,
            passphrase: opt_view(self.passphrase),
            passphrase_check: opt_view(self.passphrase_check),
        }
    }
}

impl Default for NewPublicKeyState {
    /// A fresh form: the name suggests an ed25519 key, everything else is
    /// empty and the name field holds the focus.
    fn default() -> (r: Self)
        ensures
            r@ == NewKeyV::init(),
    {
        NewPublicKeyState {
            name: "id_ed25519".to_owned(),
            key_type: PublicKeyType::ED25519,
            comment: String::new(),
            current_focus: NewPublicKeyFocus::Name,
            passphrase: None,
            passphrase_check: None,
        }
    }
}

impl NewPublicKeyState {
    /// The chosen file name.
    pub fn get_name(&self) -> (r: &str)
        ensures
            r@ == self@.name,
    {
        self.name.as_str()
    }

    /// The chosen key type.
    pub fn get_type(&self) -> (r: PublicKeyType)
        ensures
            r == self@.key_type,
    {
        self.key_type
    }

    /// The chosen comment.
    pub fn get_comment(&self) -> (r: &str)
        ensures
            r@ == self@.comment,
    {
        self.comment.as_str()
    }

    /// How many bytes the passphrase draft's UTF-8 encoding holds — the
    /// length of exactly what [`NewPublicKeyState::get_passphrase_bytes`]
    /// yields; zero when there is no draft.
    pub fn get_passphrase_len(&self) -> (r: usize)
        ensures
            self@.passphrase is None ==> r == 0,
            self@.passphrase matches Some(p) ==> r == vstd::utf8::encode_utf8(p).len(),
    {
        match &self.passphrase {
            Option::None => 0,
            Option::Some(pass) => pass.as_str().as_bytes().len(),
        }
    }

    /// The passphrase draft as the bytes written to the command: its UTF-8
    /// encoding, empty when there is no draft.
    pub fn get_passphrase_bytes(&self) -> (r: Vec<u8>)
        ensures
            self@.passphrase is None ==> r@ == Seq::<u8>::empty(),
            self@.passphrase matches Some(p) ==> r@ == vstd::utf8::encode_utf8(p),
    {
        match &self.passphrase {
            Option::None => Vec::new(),
            Option::Some(pass) => pass.as_str().as_bytes_vec(),
        }
    }

    /// Appends one character to the name.
    pub fn write_name(&mut self, ch: char)
        ensures
            final(self)@ == (NewKeyV { name: old(self)@.name.push(ch), ..old(self)@ }),
    {
        strings::push_char(&mut self.name, ch);
    }

    /// Removes the last character of the name; an empty name stays empty.
    pub fn del_name_char(&mut self)
        ensures
            final(self)@ == (NewKeyV { name: strings::seq_del_char(old(self)@.name), ..old(self)@ }),
    {
        self.name = strings::del_last_char(&self.name);
    }

    /// Removes the trailing word of the name.
    pub fn del_name_word(&mut self)
        ensures
            final(self)@ == (NewKeyV {
                name: strings::spec_del_word(old(self)@.name),
                ..old(self)@
            }),
    {
        self.name = strings::del_word(self.name.clone());
    }

    /// Appends one character to the comment.
    pub fn write_comment(&mut self, ch: char)
        ensures
            final(self)@ == (NewKeyV { comment: old(self)@.comment.push(ch), ..old(self)@ }),
    {
        strings::push_char(&mut self.comment, ch);
    }

    /// Removes the last character of the comment; an empty comment stays
    /// empty.
    pub fn del_comment_char(&mut self)
        ensures
            final(self)@ == (NewKeyV {
                comment: strings::seq_del_char(old(self)@.comment),
                ..old(self)@
            }),
    {
        self.comment = strings::del_last_char(&self.comment);
    }

    /// Removes the trailing word of the comment.
    pub fn del_comment_word(&mut self)
        ensures
            final(self)@ == (NewKeyV {
                comment: strings::spec_del_word(old(self)@.comment),
                ..old(self)@
            }),
    {
        self.comment = strings::del_word(self.comment.clone());
    }

    /// The field that holds the focus.
    pub fn get_focus(&self) -> (r: NewPublicKeyFocus)
        ensures
            r == self@.focus,
    {
        self.current_focus
    }

    /// Whether the given field holds the focus.
    pub fn has_focus_on(&self, possible_focus: NewPublicKeyFocus) -> (r: bool)
        ensures
            r == (self@.focus == possible_focus),
    {
        match (self.current_focus, possible_focus) {
            (NewPublicKeyFocus::Name, NewPublicKeyFocus::Name) => true,
            (NewPublicKeyFocus::Comment, NewPublicKeyFocus::Comment) => true,
            _ => false,
        }
    }

    /// Moves the focus to the other field.
    pub fn next_focus(&mut self)
        ensures
            final(self)@ == old(self)@.toggled_focus(),
    {
        match self.current_focus {
            NewPublicKeyFocus::Comment => self.current_focus = NewPublicKeyFocus::Name,
            NewPublicKeyFocus::Name => self.current_focus = NewPublicKeyFocus::Comment,
        }
    }

    /// Moves the focus to the other field; with two fields this mirrors
    /// `next_focus`.
    pub fn prev_focus(&mut self)
        ensures
            final(self)@ == old(self)@.toggled_focus(),
    {
        match self.current_focus {
            NewPublicKeyFocus::Comment => self.current_focus = NewPublicKeyFocus::Name,
            NewPublicKeyFocus::Name => self.current_focus = NewPublicKeyFocus::Comment,
        }
    }

    /// Appends one character to the passphrase draft, starting the draft
    /// when there is none.
    pub fn write_passphrase(&mut self, ch: char)
        ensures
            final(self)@ == old(self)@.write_passphrase(ch),
    {
        match &mut self.passphrase {
            Option::None => {
                let mut p = String::new();
                strings::push_char(&mut p, ch);
                proof {
                    assert(p@ =~= seq![ch]);
                }
                self.passphrase = Some(p);
            },
            Option::Some(pass) => {
                strings::push_char(pass, ch);
            },
        }
    }

    /// Removes the last character of the passphrase draft; an absent or
    /// empty draft stays as it is.
    pub fn del_passphare_char(&mut self)
        ensures
            final(self)@ == old(self)@.del_passphrase_char(),
    {
        match &self.passphrase {
            Option::Some(pass) => {
                self.passphrase = Some(strings::del_last_char(pass));
            },
            Option::None => {},
        }
    }

    /// Drops the passphrase draft entirely.
    pub fn del_passphrase(&mut self)
        ensures
            final(self)@ == (NewKeyV { passphrase: None, ..old(self)@ }),
    {
        self.passphrase = None;
    }

    /// Appends one character to the confirmation draft, starting the draft
    /// when there is none.
    pub fn write_passphrase_check(&mut self, ch: char)
        ensures
            final(self)@ == old(self)@.write_passphrase_check(ch),
    {
        match &mut self.passphrase_check {
            Option::None => {
                let mut p = String::new();
                strings::push_char(&mut p, ch);
                proof {
                    assert(p@ =~= seq![ch]);
                }
                self.passphrase_check = Some(p);
            },
            Option::Some(pass) => {
                strings::push_char(pass, ch);
            },
        }
    }

    /// Removes the last character of the confirmation draft; an absent or
    /// empty draft stays as it is.
    pub fn del_passphrase_check_char(&mut self)
        ensures
            final(self)@ == old(self)@.del_check_char(),
    {
        match &self.passphrase_check {
            Option::Some(pass) => {
                self.passphrase_check = Some(strings::del_last_char(pass));
            },
            Option::None => {},
        }
    }

    /// Drops the confirmation draft entirely.
    pub fn del_passphrase_check(&mut self)
        ensures
            final(self)@ == (NewKeyV { passphrase_check: None, ..old(self)@ }),
    {
        self.passphrase_check = None;
    }

    /// The confirmation draft as the bytes written to the command: its
    /// UTF-8 encoding, empty when there is no draft.
    pub fn get_passphrase_check_bytes(&self) -> (r: Vec<u8>)
        ensures
            self@.passphrase_check is None ==> r@ == Seq::<u8>::empty(),
            self@.passphrase_check matches Some(p) ==> r@ == vstd::utf8::encode_utf8(p),
    {
        match &self.passphrase_check {
            Option::None => Vec::new(),
            Option::Some(pass) => pass.as_str().as_bytes_vec(),
        }
    }

    /// How many bytes the confirmation draft's UTF-8 encoding holds — the
    /// length of exactly what
    /// [`NewPublicKeyState::get_passphrase_check_bytes`] yields; zero when
    /// there is no draft.
    pub fn get_passphrase_check_len(&self) -> (r: usize)
        ensures
            self@.passphrase_check is None ==> r == 0,
            self@.passphrase_check matches Some(p) ==> r == vstd::utf8::encode_utf8(p).len(),
    {
        match &self.passphrase_check {
            Option::None => 0,
            Option::Some(pass) => pass.as_str().as_bytes().len(),
        }
    }

    /// Clears both drafts, as happens after each full
    /// passphrase-confirmation round-trip.
    pub fn clean_passphrases(&mut self)
        ensures
            final(self)@ == old(self)@.clean(),
    {
        self.passphrase = None;
        self.passphrase_check = None;
    }

    /// Rejects the one reserved file name: `config` names the client
    /// configuration file and no key may take it.
    pub fn validate_name(&self) -> (r: Result<(), String>)
        ensures
            self@.name == "config"@ <==> r is Err,
            r matches Err(e) ==> e@ == "the name 'config' is reserved to the config file"@,
    {
        let reserved = "config".to_owned();
        if self.name.eq(&reserved) {
            return Result::Err("the name 'config' is reserved to the config file".to_owned());
        }
        Result::Ok(())
    }
}

/// Mathematical image of a [`PublicKeysListState`].
#[verifier::ext_equal]
pub struct PublicKeysV {
    pub items: Seq<String>,
    pub selected: Option<usize>,
    pub has_focus: bool,
    pub new_key: NewKeyV,
}

impl PublicKeysV {
    /// The starting state of the section: unfocused and empty, with a
    /// fresh form.
    pub open spec fn init() -> PublicKeysV {
        PublicKeysV {
            items: Seq::empty(),
            selected: None,
            has_focus: false,
            new_key: NewKeyV::init(),
        }
    }

    /// The state after moving the selection one entry down.
    pub open spec fn next_item(self) -> PublicKeysV {
        match self.selected {
            Option::None => if self.items.len() > 0 {
                PublicKeysV { selected: Some(0usize), ..self }
            } else {
                self
            },
            Option::Some(idx) => if idx + 1 < self.items.len() {
                PublicKeysV { selected: Some((idx + 1) as usize), ..self }
            } else {
                self
            },
        }
    }

    /// The state after moving the selection one entry up.
    pub open spec fn prev_item(self) -> PublicKeysV {
        match self.selected {
            Option::None => if self.items.len() > 0 {
                PublicKeysV { selected: Some(0usize), ..self }
            } else {
                self
            },
            Option::Some(idx) => if idx > 0 {
                PublicKeysV { selected: Some((idx - 1) as usize), ..self }
            } else {
                self
            },
        }
    }

    /// The state after taking the focus.
    pub open spec fn focus(self) -> PublicKeysV {
        PublicKeysV {
            has_focus: true,
            selected: if self.items.len() > 0 {
                Some(0usize)
            } else {
                self.selected
            },
            ..self
        }
    }

    /// The state after losing the focus.
    pub open spec fn unfocus(self) -> PublicKeysV {
        PublicKeysV { has_focus: false, selected: None, ..self }
    }

    /// The state after loading fresh key names: they replace the old ones;
    /// the selection stays as it is.
    pub open spec fn load(self, items: Seq<String>) -> PublicKeysV {
        PublicKeysV { items, ..self }
    }
}

/// The public-keys list: the key file names, which one is selected,
/// whether the section holds the focus, and the new-key form.
pub struct PublicKeysListState {
    items: Vec<String>,
    selected_item_idx: Option<usize>,
    has_focus: bool,
    new_key_state: NewPublicKeyState,
}

impl View for PublicKeysListState {
    type V = PublicKeysV;

    closed spec fn view(&self) -> PublicKeysV {
        PublicKeysV {
            items: self.items@,
            selected: self.selected_item_idx,
            has_focus: self.has_focus,
            new_key: self.new_key_state@,
        }
    }
}

impl Default for PublicKeysListState {
    /// The section starts unfocused and empty; whoever lists the SSH
    /// directory loads the key names.
    fn default() -> (r: Self)
        ensures
            r@ == PublicKeysV::init(),
    {
        PublicKeysListState {
            items: Vec::new(),
            selected_item_idx: None,
            has_focus: false,
            new_key_state: NewPublicKeyState::default(),
        }
    }
}

impl PublicKeysListState {
    /// Replaces the key names with the ones the caller found in the SSH
    /// directory.
    pub fn load_public_keys(&mut self, public_keys: Vec<String>)
        ensures
            final(self)@ == old(self)@.load(public_keys@),
    {
        self.items = public_keys;
    }

    /// Takes the focus, selecting the first key when there is one.
    pub fn focus(&mut self)
        ensures
            final(self)@ == old(self)@.focus(),
    {
        self.has_focus = true;
        if self.items.len() > 0 {
            self.selected_item_idx = Some(0);
        }
    }

    /// Gives the focus up and clears the selection.
    pub fn unfocus(&mut self)
        ensures
            final(self)@ == old(self)@.unfocus(),
    {
        self.has_focus = false;
        self.selected_item_idx = None;
    }

    /// Whether the section holds the focus.
    pub fn has_focus(&self) -> (r: bool)
        ensures
            r == self@.has_focus,
    {
        self.has_focus
    }

    /// The key file names currently shown.
    pub fn get_items(&self) -> (r: &Vec<String>)
        ensures
            r@ == self@.items,
    {
        &self.items
    }

    /// Which key is selected, if any.
    pub fn get_selected_item_idx(&self) -> (r: Option<usize>)
        ensures
            r == self@.selected,
    {
        self.selected_item_idx
    }

    /// The name of the selected key without its extension: the file stem
    /// of the selected `.pub` file. Nothing when no valid entry is
    /// selected.
    pub fn get_selected_key_name(&self) -> (r: Option<String>)
        ensures
            match self@.selected {
                Option::None => r is None,
                Option::Some(idx) => if idx < self@.items.len() {
                    r matches Some(s) && s@ == files::spec_file_stem(self@.items[idx as int]@)
                } else {
                    r is None
                },
            },
    {
        match self.selected_item_idx {
            Option::None => Option::None,
            Option::Some(idx) => {
                if idx < self.items.len() {
                    Option::Some(files::key_file_stem(&self.items[idx]))
                } else {
                    Option::None
                }
            },
        }
    }

    /// The full path of the selected key file under the given SSH
    /// directory. Nothing when no valid entry is selected.
    pub fn get_selected_key_path(&self, ssh_dir: &String) -> (r: Option<String>)
        ensures
            match self@.selected {
                Option::None => r is None,
                Option::Some(idx) => if idx < self@.items.len() {
                    r matches Some(s) && s@ == ssh_dir@ + "/"@ + self@.items[idx as int]@
                } else {
                    r is None
                },
            },
    {
        match self.selected_item_idx {
            Option::None => Option::None,
            Option::Some(idx) => {
                if idx < self.items.len() {
                    Option::Some(files::join_path(ssh_dir, &self.items[idx]))
                } else {
                    Option::None
                }
            },
        }
    }

    /// The file name of the selected entry as listed. Nothing when no
    /// valid entry is selected.
    pub fn get_selected_key_file(&self) -> (r: Option<String>)
        ensures
            match self@.selected {
                Option::None => r is None,
                Option::Some(idx) => if idx < self@.items.len() {
                    r matches Some(s) && s@ == self@.items[idx as int]@
                } else {
                    r is None
                },
            },
    {
        match self.selected_item_idx {
            Option::None => Option::None,
            Option::Some(idx) => {
                if idx < self.items.len() {
                    Option::Some(self.items[idx].clone())
                } else {
                    Option::None
                }
            },
        }
    }

    /// Moves the selection one entry down.
    pub fn next_item(&mut self)
        ensures
            final(self)@ == old(self)@.next_item(),
    {
        match self.selected_item_idx {
            Option::None => {
                if self.items.len() > 0 {
                    self.selected_item_idx = Some(0);
                }
            },
            Option::Some(idx) => {
                if idx < self.items.len() && idx + 1 < self.items.len() {
                    self.selected_item_idx = Some(idx + 1);
                }
            },
        }
    }

    /// Moves the selection one entry up.
    pub fn prev_item(&mut self)
        ensures
            final(self)@ == old(self)@.prev_item(),
    {
        match self.selected_item_idx {
            Option::None => {
                if self.items.len() > 0 {
                    self.selected_item_idx = Some(0);
                }
            },
            Option::Some(idx) => {
                if idx > 0 {
                    self.selected_item_idx = Some(idx - 1);
                }
            },
        }
    }

    /// The new-key form.
    pub fn get_new_key_state(&self) -> (r: &NewPublicKeyState)
        ensures
            r@ == self@.new_key,
    {
        &self.new_key_state
    }

    /// The new-key form, for writing.
    pub fn get_new_key_state_mut(&mut self) -> (r: &mut NewPublicKeyState)
        ensures
            (*r)@ == old(self)@.new_key,
            final(self)@ == (PublicKeysV { new_key: (*final(r))@, ..old(self)@ }),
    {
        &mut self.new_key_state
    }
}

} // verus!
