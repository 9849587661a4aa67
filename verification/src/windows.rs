//! Chat-window bookkeeping: the identifier, title and listing rules for the
//! detached chat windows.  Creating, closing and moving the actual windows
//! is the shell's work, outside the crate.

use vstd::prelude::*;
use vstd::string::*;
use crate::text;

verus! {

/// What the shell reports about one chat window.
#[derive(Clone, Debug)]
pub struct ChatWindowInfo {
    pub window_id: String,
    pub chat_id: Option<String>,
    pub model: Option<String>,
    pub title: String,
}

/// Builds a chat window's identifier from a fresh raw id: the chat prefix
/// plus the id without its hyphens.
pub fn chat_window_id(raw_id: &str) -> (r: String)
    ensures
        r@ == "chat_"@ + text::without_char(raw_id@, '-'),
{
    let mut out = "chat_".to_owned();
    let stripped = text::remove_char(raw_id, '-');
    out.append(stripped.as_str());
    out
}

/// The window title for a chat: named for its model when one is chosen.
pub fn chat_window_title(model: Option<&String>) -> (r: String)
    ensures
        match model {
            Some(m) => r@ == "Chat - "@ + m@,
            None => r@ == "Nouveau Chat"@,
        },
{
    match model {
        Some(m) => {
            let mut out = "Chat - ".to_owned();
            out.append(m.as_str());
            out
        },
        None => "Nouveau Chat".to_owned(),
    }
}

/// Whether a window label belongs to a chat window.
pub fn is_chat_window_label(label: &str) -> (r: bool)
    ensures
        r == (label@.len() >= "chat_"@.len() && label@.take("chat_"@.len() as int) == "chat_"@),
{
    text::str_starts_with(label, "chat_")
}

} // verus!
