//! Speaker attribution: decides whether an utterance gets a speaker-change
//! prefix, appends the attachment narration, and updates the session's
//! last-message memory.

use vstd::prelude::*;
use vstd::string::StringExecFns;
use crate::session::{Session, SessionSpec, LastMessage, LastMessageSpec, with_last_message};
use crate::text::{no_occurrence, purged, purge, lemma_purged_no_occurrence, dec_digits, u64_to_dec};

verus! {

/// The pause directive understood by the synthesis providers.
pub open spec fn pause_marker() -> Seq<char> {
    "<break time=\"200ms\"/>"@
}

/// The pause directive as text.
pub fn pause_marker_str() -> (r: &'static str)
    ensures
        r@ == pause_marker(),
{
    "<break time=\"200ms\"/>"
}

/// Chat-derived text with the pause marker struck out repeatedly, until
/// none is left: a single removal can join fragments into a fresh marker,
/// so the strip runs to a fixpoint.
pub open spec fn sanitized(t: Seq<char>) -> Seq<char> {
    purged(t, pause_marker())
}

/// Injection-proofing: sanitized text holds no pause marker, so a pause
/// directive in the narrated output can only come from attribution itself.
pub proof fn lemma_sanitized_no_marker(t: Seq<char>)
    ensures
        no_occurrence(sanitized(t), pause_marker()),
{
    reveal_strlit("<break time=\"200ms\"/>");
    lemma_purged_no_occurrence(t, pause_marker());
}

/// The author who spoke the last narrated utterance, if any.
pub open spec fn last_author_of(s: SessionSpec) -> Option<u64> {
    match s.last_message {
        Some(lm) => Some(lm.author_id),
        None => None,
    }
}

/// The narrated form of an utterance: a speaker-change prefix when the
/// author differs from the last narrated author (or nothing was narrated
/// yet), and an attachment narration when attachments are present.
pub open spec fn narration(
    last_author: Option<u64>,
    author_id: u64,
    author_name: Seq<char>,
    text: Seq<char>,
    attachment_count: u64,
) -> Seq<char> {
    let base = if last_author == Some(author_id) {
        sanitized(text)
    } else {
        sanitized(author_name) + "'s remark"@ + pause_marker() + sanitized(text)
    };
    if attachment_count > 0 {
        base + pause_marker() + dec_digits(attachment_count as int) + " attachment(s)"@
    } else {
        base
    }
}

/// Strips pause markers out of chat-derived text until none is left.
pub fn sanitize(text: &str) -> (r: String)
    ensures
        r@ == sanitized(text@),
        no_occurrence(r@, pause_marker()),
{
    proof {
        lemma_sanitized_no_marker(text@);
    }
    purge(text, pause_marker_str())
}

/// The narrated form of an utterance, from the last narrated author alone.
pub fn attribute_text(
    last_author: Option<u64>,
    author_id: u64,
    author_name: &str,
    text: &str,
    attachment_count: u64,
) -> (r: String)
    ensures
        r@ == narration(last_author, author_id, author_name@, text@, attachment_count),
{
    let same = match last_author {
        Some(a) => a == author_id,
        None => false,
    };
    let mut r = if same {
        sanitize(text)
    } else {
        let mut p = sanitize(author_name);
        p.append("'s remark");
        p.append(pause_marker_str());
        p.append(sanitize(text).as_str());
        p
    };
    if attachment_count > 0 {
        r.append(pause_marker_str());
        r.append(u64_to_dec(attachment_count).as_str());
        r.append(" attachment(s)");
    }
    r
}

/// Computes the narrated form of a message and, as a side effect, points
/// the session's last-message memory at this message, establishing the
/// ordering for the next call.
pub fn attribute(
    session: &mut Session,
    author_id: u64,
    author_name: &str,
    text: &str,
    attachment_count: u64,
) -> (r: String)
    ensures
        r@ == narration(
            last_author_of(old(session)@),
            author_id,
            author_name@,
            text@,
            attachment_count,
        ),
        final(session)@ == with_last_message(
            old(session)@,
            LastMessageSpec { author_id, content: text@, attachment_count },
        ),
{
    let r = attribute_text(
        match session.last_message {
            Some(ref lm) => Some(lm.author_id),
            None => None,
        },
        author_id,
        author_name,
        text,
        attachment_count,
    );
    session.last_message = Some(
        LastMessage { author_id, content: text.to_owned(), attachment_count },
    );
    r
}

/// Speaker attribution toggling: after a message by one author, a second
/// message by the same author is narrated without a prefix, and a message
/// by a different author is narrated with that author's prefix.
pub proof fn lemma_attribution_toggling(
    s: SessionSpec,
    first: LastMessageSpec,
    other_author: u64,
    other_name: Seq<char>,
    text: Seq<char>,
)
    requires
        other_author != first.author_id,
    ensures
        narration(
            last_author_of(with_last_message(s, first)),
            first.author_id,
            other_name,
            text,
            0,
        ) == sanitized(text),
        narration(
            last_author_of(with_last_message(s, first)),
            other_author,
            other_name,
            text,
            0,
        ) == sanitized(other_name) + "'s remark"@ + pause_marker() + sanitized(text),
{
}

} // verus!
