//! Messages that the editor shows to the user until they are dismissed.
use vstd::prelude::*;
use vstd::string::*;

use crate::release::CodebergRelease;
use crate::text::{find_from, first_match, to_chars, trim, trimmed_range};

verus! {

/// Any sort of message that the user needs to be informed of.
#[derive(Debug, Clone)]
pub enum Message {
    Generic(GenericMessage),
    Update(UpdateMessage),
}

/// A closable message. Used for errors that the user needs to know about.
#[derive(Debug, Clone)]
pub struct GenericMessage {
    pub message: String,
}

/// Announces that a newer release is available.
#[derive(Debug, Clone)]
pub struct UpdateMessage {
    pub release: CodebergRelease,
}

/// The marker after which a release body gives its own update text.
pub open spec fn override_marker() -> Seq<char> {
    "UPDATE_MESSAGE_OVERRIDE"@
}

/// The text shown for a release: what follows the override marker in its
/// body (trimmed), or a sentence naming the release's tag.
pub open spec fn update_text_of(body: Seq<char>, tag: Seq<char>) -> Seq<char> {
    match first_match(body, override_marker()) {
        Some(i) => trim(body.skip(i + override_marker().len())),
        None => "A new version of cheese-paper is available: "@ + tag,
    }
}

impl UpdateMessage {
    pub fn new(release: CodebergRelease) -> (message: Self)
        ensures
            message.release == release,
    {
        UpdateMessage { release }
    }

    /// The text that the message shows.
    pub fn update_text(&self) -> (text: String)
        ensures
            text@ == update_text_of(self.release.body@, self.release.tag_name@),
    {
        let body = self.release.body.as_str();
        let chars = to_chars(body);
        let marker = to_chars("UPDATE_MESSAGE_OVERRIDE");
        assert(chars@.take(chars@.len() as int) =~= chars@);
        match find_from(chars.as_slice(), chars.len(), marker.as_slice(), 0) {
            Some(i) => {
                proof {
                    crate::text::lemma_first_match_from_found(chars@, marker@, 0);
                }
                let start = i + marker.len();
                let (a, b) = trimmed_range(chars.as_slice(), start, chars.len());
                assert(chars@.subrange(start as int, chars@.len() as int) =~= chars@.skip(
                    start as int,
                ));
                body.substring_char(a, b).to_owned()
            },
            None => {
                let mut text = String::from_str("A new version of cheese-paper is available: ");
                text.append(self.release.tag_name.as_str());
                text
            },
        }
    }
}

} // verus!
