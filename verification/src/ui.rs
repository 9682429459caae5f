//! The surfaces the user can focus: top-level sections and modal popups.

pub mod popups;

use vstd::prelude::*;

verus! {

/// Severity of a message shown in the configurable popup.
#[derive(Clone, Copy, PartialEq, Eq, Structural, Debug)]
pub enum ColorVariant {
    Success,
    Warning,
    Danger,
}

/// A top-level navigable view. Key bindings change meaning with the
/// section that currently holds the focus.
#[derive(Clone, Copy, PartialEq, Eq, Structural, Debug)]
pub enum Section {
    KnownHostsList,
    PublicKeysList,
    ClientConfig,
}

impl Default for Section {
    /// The application starts on the known-hosts list.
    fn default() -> (r: Self)
        ensures
            r == Section::KnownHostsList,
    {
        Section::KnownHostsList
    }
}

/// A modal overlay. While one is set it captures all input until it is
/// dismissed or resolved.
#[derive(PartialEq, Eq, Debug)]
pub enum Popup {
    ExitPrompt,
    AddPubKey,
    WaitingCmd,
    ErrorMsg,
    PromptPassphrase,
    PromptReenterPassphrase,
    PromptKeyOverwrite,
    WithCfg(String, ColorVariant),
    PromptDeleteKeyPairConfirmation,
    ShowPubKeyContent,
}

/// Mathematical image of a [`Popup`]: text carried as a sequence of
/// characters.
#[verifier::ext_equal]
pub enum PopupV {
    ExitPrompt,
    AddPubKey,
    WaitingCmd,
    ErrorMsg,
    PromptPassphrase,
    PromptReenterPassphrase,
    PromptKeyOverwrite,
    WithCfg(Seq<char>, ColorVariant),
    PromptDeleteKeyPairConfirmation,
    ShowPubKeyContent,
}

impl View for Popup {
    type V = PopupV;

    open spec fn view(&self) -> PopupV {
        match self {
            Popup::ExitPrompt => PopupV::ExitPrompt,
            Popup::AddPubKey => PopupV::AddPubKey,
            Popup::WaitingCmd => PopupV::WaitingCmd,
            Popup::ErrorMsg => PopupV::ErrorMsg,
            Popup::PromptPassphrase => PopupV::PromptPassphrase,
            Popup::PromptReenterPassphrase => PopupV::PromptReenterPassphrase,
            Popup::PromptKeyOverwrite => PopupV::PromptKeyOverwrite,
            Popup::WithCfg(text, variant) => PopupV::WithCfg(text@, *variant),
            Popup::PromptDeleteKeyPairConfirmation => PopupV::PromptDeleteKeyPairConfirmation,
            Popup::ShowPubKeyContent => PopupV::ShowPubKeyContent,
        }
    }
}

/// Which surface currently receives input: a section, or the popup laid
/// over it.
#[derive(PartialEq, Eq, Debug)]
pub enum Focus {
    Popup(Popup),
    Section(Section),
}

/// Mathematical image of a [`Focus`].
#[verifier::ext_equal]
pub enum FocusV {
    Popup(PopupV),
    Section(Section),
}

impl View for Focus {
    type V = FocusV;

    open spec fn view(&self) -> FocusV {
        match self {
            Focus::Popup(p) => FocusV::Popup(p@),
            Focus::Section(s) => FocusV::Section(*s),
        }
    }
}

impl Clone for Popup {
    /// A copy with the same image.
    fn clone(&self) -> (r: Self)
        ensures
            r@ == self@,
    {
        match self {
            Popup::ExitPrompt => Popup::ExitPrompt,
            Popup::AddPubKey => Popup::AddPubKey,
            Popup::WaitingCmd => Popup::WaitingCmd,
            Popup::ErrorMsg => Popup::ErrorMsg,
            Popup::PromptPassphrase => Popup::PromptPassphrase,
            Popup::PromptReenterPassphrase => Popup::PromptReenterPassphrase,
            Popup::PromptKeyOverwrite => Popup::PromptKeyOverwrite,
            Popup::WithCfg(text, variant) => Popup::WithCfg(text.clone(), *variant),
            Popup::PromptDeleteKeyPairConfirmation => Popup::PromptDeleteKeyPairConfirmation,
            Popup::ShowPubKeyContent => Popup::ShowPubKeyContent,
        }
    }
}

/// The image of an optional popup.
pub open spec fn opt_popup_view(o: Option<Popup>) -> Option<PopupV> {
    match o {
        Option::None => None,
        Option::Some(p) => Some(p@),
    }
}

impl Clone for Focus {
    /// A copy with the same image.
    fn clone(&self) -> (r: Self)
        ensures
            r@ == self@,
    {
        match self {
            Focus::Popup(p) => Focus::Popup(p.clone()),
            Focus::Section(s) => Focus::Section(*s),
        }
    }
}

impl Default for Focus {
    /// Focus starts on the default section, with no popup shown.
    fn default() -> (r: Self)
        ensures
            r@ == FocusV::Section(Section::KnownHostsList),
    {
        Focus::Section(Section::KnownHostsList)
    }
}

} // verus!
