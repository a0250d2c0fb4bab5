//! A guild's live narration session: the bound channels and the memory of
//! the last narrated message, on which speaker attribution depends.

use vstd::prelude::*;

verus! {

/// What the session remembers of the last narrated message.
pub struct LastMessage {
    pub author_id: u64,
    pub content: String,
    pub attachment_count: u64,
}

/// The mathematical shape of [`LastMessage`].
pub struct LastMessageSpec {
    pub author_id: u64,
    pub content: Seq<char>,
    pub attachment_count: u64,
}

impl View for LastMessage {
    type V = LastMessageSpec;

    open spec fn view(&self) -> LastMessageSpec {
        LastMessageSpec {
            author_id: self.author_id,
            content: self.content@,
            attachment_count: self.attachment_count,
        }
    }
}

/// One guild's active narration session. Its existence in the registry
/// implies an active voice connection for the guild.
pub struct Session {
    pub guild_id: u64,
    pub text_channel: u64,
    pub voice_channel: u64,
    pub created_at: u64,
    pub last_message: Option<LastMessage>,
}

/// The mathematical shape of [`Session`].
pub struct SessionSpec {
    pub guild_id: u64,
    pub text_channel: u64,
    pub voice_channel: u64,
    pub created_at: u64,
    pub last_message: Option<LastMessageSpec>,
}

impl View for Session {
    type V = SessionSpec;

    open spec fn view(&self) -> SessionSpec {
        SessionSpec {
            guild_id: self.guild_id,
            text_channel: self.text_channel,
            voice_channel: self.voice_channel,
            created_at: self.created_at,
            last_message: match self.last_message {
                Some(ref lm) => Some(lm@),
                None => None,
            },
        }
    }
}

/// A just-created session: channels bound, nothing narrated yet.
pub open spec fn fresh_session_spec(
    guild_id: u64,
    text_channel: u64,
    voice_channel: u64,
    created_at: u64,
) -> SessionSpec {
    SessionSpec {
        guild_id: guild_id,
        text_channel: text_channel,
        voice_channel: voice_channel,
        created_at: created_at,
        last_message: None,
    }
}

/// The same session with its last-message memory replaced.
pub open spec fn with_last_message(s: SessionSpec, lm: LastMessageSpec) -> SessionSpec {
    SessionSpec { last_message: Some(lm), ..s }
}

impl Session {
    /// A session for a guild that has just been set up.
    pub fn new(guild_id: u64, text_channel: u64, voice_channel: u64, created_at: u64) -> (s:
        Session)
        ensures
            s@ == fresh_session_spec(guild_id, text_channel, voice_channel, created_at),
    {
        Session {
            guild_id,
            text_channel,
            voice_channel,
            created_at,
            last_message: None,
        }
    }
}

} // verus!
