use vstd::prelude::*;
use crate::host::text_result;
use crate::text::prefixed_message;

verus! {

/// What the host found when it tried to read text from the clipboard.
#[derive(Clone, Debug)]
pub enum ClipboardRead {
    /// The clipboard held text.
    Text { text: String },
    /// The clipboard was reached but held no text it could hand over.
    Unreadable { reason: String },
    /// The clipboard itself could not be opened.
    Unavailable { reason: String },
}

/// The result of a clipboard read: the text exactly, or a message that says
/// which step failed and why.
pub open spec fn clipboard_outcome(read: ClipboardRead) -> Result<Seq<char>, Seq<char>> {
    match read {
        ClipboardRead::Text { text } => Ok(text@),
        ClipboardRead::Unreadable { reason } => Err("Failed to read clipboard: "@ + reason@),
        ClipboardRead::Unavailable { reason } => Err("Failed to access clipboard: "@ + reason@),
    }
}

/// The clipboard text to hand the UI for what the host found.
pub fn get_clipboard_text(read: ClipboardRead) -> (r: Result<String, String>)
    ensures
        text_result(r) == clipboard_outcome(read),
        r matches Err(e) ==> e@.len() > 0,
{
    proof {
        reveal_strlit("Failed to read clipboard: ");
        reveal_strlit("Failed to access clipboard: ");
    }
    match read {
        ClipboardRead::Text { text } => Ok(text),
        ClipboardRead::Unreadable { reason } => {
            Err(prefixed_message("Failed to read clipboard: ", reason.as_str()))
        },
        ClipboardRead::Unavailable { reason } => {
            Err(prefixed_message("Failed to access clipboard: ", reason.as_str()))
        },
    }
}

} // verus!
