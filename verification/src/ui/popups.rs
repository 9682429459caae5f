//! An older popup set kept for the debug view.

use vstd::prelude::*;

verus! {

/// The popups of the early debugging screen: the exit question and the
/// model dump.
#[derive(Clone, Copy, PartialEq, Eq, Structural, Debug)]
pub enum Popup {
    Exit,
    DebugModel,
}

} // verus!
