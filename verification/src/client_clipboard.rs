//! Clipboard change tracking on the client side, where the clipboard holds
//! text only. The caller reads and writes the clipboard through SDL; this
//! module keeps the hash of the text last seen, so that a change is reported
//! once and text set from the server is not echoed back.

use vstd::prelude::*;
use crate::clipboard::{content_hash, xxh3_of};
use crate::text::{bytes_of, same_text};
use vstd::utf8::encode_utf8;

verus! {

/// What becomes of clipboard content that the server sends.
#[derive(Debug, Clone, Copy, PartialEq, Eq, Structural)]
pub enum RemoteContent {
    /// Text (`text/plain` or `text/html`): set as clipboard text.
    Text,
    /// An image (`image/png`): SDL cannot hold it, it is skipped.
    Image,
    /// Any other type: skipped.
    Unsupported,
}

/// How content of a MIME type is taken.
pub open spec fn remote_content_spec(mime: Seq<char>) -> RemoteContent {
    if mime == "text/plain"@ || mime == "text/html"@ {
        RemoteContent::Text
    } else if mime == "image/png"@ {
        RemoteContent::Image
    } else {
        RemoteContent::Unsupported
    }
}

/// How clipboard content of the given MIME type from the server is taken.
pub fn remote_content(mime_type: &str) -> (r: RemoteContent)
    ensures
        r == remote_content_spec(mime_type@),
{
    if same_text(mime_type, "text/plain") || same_text(mime_type, "text/html") {
        RemoteContent::Text
    } else if same_text(mime_type, "image/png") {
        RemoteContent::Image
    } else {
        RemoteContent::Unsupported
    }
}

/// The content to send for the clipboard's text, if it holds any: the text's
/// bytes as `text/plain`.
pub fn get_content(text: Option<String>) -> (r: Option<(String, Vec<u8>)>)
    ensures
        match text {
            None => r is None,
            Some(t) => r matches Some((m, d)) && m@ == "text/plain"@ && d@ == encode_utf8(t@),
        },
{
    match text {
        Some(t) => Some(("text/plain".to_owned(), bytes_of(t.as_str()))),
        None => None,
    }
}

/// The hash of the clipboard text last seen or set.
pub struct ClipboardHandler {
    last_content_hash: Option<u64>,
}

impl ClipboardHandler {
    /// The hash last seen or set.
    pub closed spec fn spec_hash(&self) -> Option<u64> {
        self.last_content_hash
    }

    /// Nothing seen yet.
    pub fn new() -> (h: ClipboardHandler)
        ensures
            h.spec_hash() is None,
    {
        ClipboardHandler { last_content_hash: None }
    }

    /// The hash of the text last seen or set.
    pub fn current_hash(&self) -> (h: Option<u64>)
        ensures
            h == self.spec_hash(),
    {
        self.last_content_hash
    }

    /// Records a hash for content set from the server.
    pub fn set_expected_hash(&mut self, hash: u64)
        ensures
            final(self).spec_hash() == Some(hash),
    {
        self.last_content_hash = Some(hash);
    }

    /// Records text that was just put on the clipboard, so that it is not
    /// reported as a change.
    pub fn set_text(&mut self, text: &str)
        ensures
            final(self).spec_hash() == Some(xxh3_of(encode_utf8(text@))),
    {
        let bytes = bytes_of(text);
        self.last_content_hash = Some(content_hash(bytes.as_slice()));
    }

    /// Takes what reading the clipboard gave: text whose hash differs from
    /// the last one is a change and is recorded; an empty clipboard after
    /// content is a change and clears the record; a failed read is no change.
    pub fn has_changed(&mut self, read: Result<Option<String>, String>) -> (changed: bool)
        ensures
            match read {
                Ok(Some(t)) => {
                    &&& changed == text_change_reported(old(self).spec_hash(), t@)
                    &&& final(self).spec_hash() == Some(xxh3_of(encode_utf8(t@)))
                },
                Ok(None) => {
                    &&& changed == old(self).spec_hash() is Some
                    &&& final(self).spec_hash() is None
                },
                Err(_) => !changed && final(self).spec_hash() == old(self).spec_hash(),
            },
    {
        match read {
            Ok(Some(text)) => {
                let bytes = bytes_of(text.as_str());
                let hash = content_hash(bytes.as_slice());
                if self.last_content_hash != Some(hash) {
                    self.last_content_hash = Some(hash);
                    return true;
                }
                false
            },
            Ok(None) => {
                if self.last_content_hash.is_some() {
                    self.last_content_hash = None;
                    return true;
                }
                false
            },
            Err(_) => false,
        }
    }
}

/// Whether reading `text` counts as a change, given the hash last seen.
pub open spec fn text_change_reported(last_hash: Option<u64>, text: Seq<char>) -> bool {
    last_hash != Some(xxh3_of(encode_utf8(text)))
}

/// Text that was set on the clipboard (from the server) or just reported as
/// a change is not reported again when it is read back.
pub proof fn lemma_set_text_not_reported(state: ClipboardHandler, text: Seq<char>)
    requires
        state.spec_hash() == Some(xxh3_of(encode_utf8(text))),
    ensures
        !text_change_reported(state.spec_hash(), text),
{
}

} // verus!
