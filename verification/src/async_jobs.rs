//! How the outcomes of the fire-and-forget background jobs — the
//! clipboard write and the key-pair deletion — read as typed events. The
//! jobs themselves run outside the crate and report through the shared
//! channel.

use vstd::prelude::*;
use vstd::string::StringExecFns;

use crate::events::messages::{msgs_view, Message, MessageV};

verus! {

/// Why a clipboard write failed: the clipboard could not be opened, or
/// the contents could not be set.
pub enum ClipboardError {
    Load(String),
    Write(String),
}

/// How the outcome of a clipboard write reads as an event: success and
/// both failures become dismissible popups.
pub fn clipboard_outcome(result: Result<(), ClipboardError>) -> (r: Message)
    ensures
        result is Ok ==> r@ == MessageV::PrintSuccess("Public key copied to clipboard"@),
        result matches Err(ClipboardError::Load(e)) ==> r@ == MessageV::PrintError(
            "Failed to load clipboard: "@ + e@,
        ),
        result matches Err(ClipboardError::Write(e)) ==> r@ == MessageV::PrintError(
            "Failed to copy to clipboard: "@ + e@,
        ),
{
    match result {
        Result::Ok(_) => Message::PrintSuccess("Public key copied to clipboard".to_owned()),
        Result::Err(ClipboardError::Load(e)) => {
            let text = "Failed to load clipboard: ".to_owned().concat(e.as_str());
            Message::PrintError(text)
        },
        Result::Err(ClipboardError::Write(e)) => {
            let text = "Failed to copy to clipboard: ".to_owned().concat(e.as_str());
            Message::PrintError(text)
        },
    }
}

/// How the outcome of deleting the key pair `private_key_name` reads as
/// events: a report — success as a popup, failure as a dismissible error
/// — followed in either case by a reload of the key list.
pub fn delete_outcome(private_key_name: &String, result: Result<(), String>) -> (r: Vec<Message>)
    ensures
        result is Ok ==> msgs_view(r@) == seq![
            MessageV::PrintSuccess(
                "key '"@ + private_key_name@ + "' successfully deleted"@,
            ),
            MessageV::RefreshPublicKeysList,
        ],
        result matches Err(e) ==> msgs_view(r@) == seq![
            MessageV::PrintError(e@),
            MessageV::RefreshPublicKeysList,
        ],
{
    let mut out: Vec<Message> = Vec::new();
    match result {
        Result::Ok(_) => {
            let text = "key '".to_owned().concat(private_key_name.as_str()).concat(
                "' successfully deleted",
            );
            out.push(Message::PrintSuccess(text));
        },
        Result::Err(e) => {
            out.push(Message::PrintError(e));
        },
    }
    out.push(Message::RefreshPublicKeysList);
    proof {
        assert(msgs_view(out@) =~= seq![out@[0]@, out@[1]@]);
    }
    out
}

} // verus!
