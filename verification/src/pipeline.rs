//! The pipeline orchestrator: the decision core behind each inbound event.
//! The embedding fetches configuration, performs the provider call, writes
//! the artifact and hands it to playback; every decision in between is
//! made here, against the session registry.

use vstd::prelude::*;
use crate::attribution::{attribute_text, last_author_of, narration};
use crate::dictionary::{apply_rules, apply_rules_spec, RuleSpec, ServerConfig};
use crate::provider::{
    build_synthesize_request_body, request_body_spec, select_local_speaker, select_provider,
    selected_local_speaker, selected_provider, ssml_document, to_local_text, local_payload,
    wrap_ssml, AudioConfig, AudioSpec, ProviderChoice, UserConfig,
};
use crate::registry::{RegistryError, SessionRegistry, create_step};
use crate::session::{
    fresh_session_spec, with_last_message, LastMessage, LastMessageSpec, Session, SessionSpec,
};

verus! {

/// The audio parameters every narration request is sent with.
pub open spec fn narration_audio_spec() -> AudioSpec {
    AudioSpec { audio_encoding: "mp3"@, speaking_rate_centi: 120, pitch_centi: 100 }
}

/// The narrated form of a message against a session: the dictionary
/// applied to the raw content, then speaker attribution against the
/// session's last narrated author.
pub open spec fn narrated_text(
    s: SessionSpec,
    rules: Seq<RuleSpec>,
    author_id: u64,
    author_name: Seq<char>,
    content: Seq<char>,
    attachment_count: u64,
) -> Seq<char> {
    narration(
        last_author_of(s),
        author_id,
        author_name,
        apply_rules_spec(rules, content),
        attachment_count,
    )
}

/// A synthesis request ready for its provider's wire dialect.
pub enum SynthesisJob {
    /// A JSON request document for the cloud provider.
    Cloud { body: String },
    /// Plain text and a speaker for the local provider.
    Local { text: String, speaker: u64 },
}

/// What an inbound chat message leads to.
pub enum MessageOutcome {
    /// The guild has no session: the message is dropped silently.
    Inactive,
    /// A synthesis request, ready to be dispatched.
    Prepared(SynthesisJob),
}

/// The event handler's decision core. It owns the session registry; the
/// embedding owns the transports around it.
pub struct Handler {
    pub registry: SessionRegistry,
}

impl View for Handler {
    type V = Map<u64, SessionSpec>;

    open spec fn view(&self) -> Map<u64, SessionSpec> {
        self.registry@
    }
}

impl Handler {
    /// A handler with no guild set up.
    pub fn new() -> (r: Handler)
        ensures
            r@ == Map::<u64, SessionSpec>::empty(),
    {
        Handler { registry: SessionRegistry::new() }
    }

    /// The setup command: binds the invoker's voice channel and the text
    /// channel to a new session, failing when one already exists. On
    /// success the embedding joins the voice channel.
    pub fn setup_command(
        &mut self,
        guild_id: u64,
        text_channel: u64,
        voice_channel: u64,
        created_at: u64,
    ) -> (res: Result<Session, RegistryError>)
        ensures
            final(self)@ == create_step(
                old(self)@,
                guild_id,
                fresh_session_spec(guild_id, text_channel, voice_channel, created_at),
            ).0,
            res is Ok <==> !old(self)@.contains_key(guild_id),
            res is Ok ==> res->Ok_0@ == fresh_session_spec(
                guild_id,
                text_channel,
                voice_channel,
                created_at,
            ),
            res is Err ==> res->Err_0 == RegistryError::AlreadySetUp && final(self)@ == old(
                self,
            )@,
    {
        self.registry.create(guild_id, text_channel, voice_channel, created_at)
    }

    /// The stop command: tears the guild's session down, failing when none
    /// exists. On success the embedding leaves the voice channel.
    pub fn stop_command(&mut self, guild_id: u64) -> (res: Result<Session, RegistryError>)
        ensures
            res is Ok <==> old(self)@.contains_key(guild_id),
            res is Ok ==> res->Ok_0@ == old(self)@[guild_id] && final(self)@ == old(
                self,
            )@.remove(guild_id),
            res is Err ==> res->Err_0 == RegistryError::NotSetUp && final(self)@ == old(self)@,
    {
        self.registry.remove(guild_id)
    }

    /// An external disconnect notification: the voice connection is gone,
    /// so the registry entry is purged. Already-purged guilds are ignored.
    pub fn disconnected(&mut self, guild_id: u64)
        ensures
            final(self)@ == old(self)@.remove(guild_id),
            !final(self)@.contains_key(guild_id),
    {
        let res = self.registry.remove(guild_id);
        proof {
            if res is Err {
                assert(final(self)@ =~= old(self)@.remove(guild_id));
            }
        }
    }

    /// One inbound chat message: drops it silently when the guild has no
    /// session; otherwise transforms the content through the guild's
    /// dictionary, attributes the speaker (updating the session's
    /// last-message memory), and prepares the selected provider's request.
    ///
    /// The cloud provider cannot be asked for synthesis without a
    /// configured voice, so a configuration that selects it must carry one.
    pub fn message(
        &mut self,
        guild_id: u64,
        author_id: u64,
        author_name: &str,
        content: &str,
        attachment_count: u64,
        server_config: &ServerConfig,
        user_config: &UserConfig,
    ) -> (res: MessageOutcome)
        requires
            selected_provider(user_config@) == ProviderChoice::Cloud
                ==> user_config@.cloud_voice is Some,
        ensures
            !old(self)@.contains_key(guild_id) ==> final(self)@ == old(self)@ && res
                is Inactive,
            old(self)@.contains_key(guild_id) ==> final(self)@ == old(self)@.insert(
                guild_id,
                with_last_message(
                    old(self)@[guild_id],
                    LastMessageSpec {
                        author_id,
                        content: apply_rules_spec(server_config@, content@),
                        attachment_count,
                    },
                ),
            ),
            old(self)@.contains_key(guild_id) && selected_provider(user_config@)
                == ProviderChoice::Cloud ==> (res matches MessageOutcome::Prepared(
                SynthesisJob::Cloud { body },
            ) && body@ == request_body_spec(
                ssml_document(
                    narrated_text(
                        old(self)@[guild_id],
                        server_config@,
                        author_id,
                        author_name@,
                        content@,
                        attachment_count,
                    ),
                ),
                user_config@.cloud_voice->Some_0,
                narration_audio_spec(),
            )),
            old(self)@.contains_key(guild_id) && selected_provider(user_config@)
                == ProviderChoice::Local ==> (res matches MessageOutcome::Prepared(
                SynthesisJob::Local { text, speaker },
            ) && text@ == local_payload(
                narrated_text(
                    old(self)@[guild_id],
                    server_config@,
                    author_id,
                    author_name@,
                    content@,
                    attachment_count,
                ),
            ) && speaker == selected_local_speaker(user_config@)),
    {
        let last_author = match self.registry.lookup(guild_id) {
            Some(s) => match s.last_message {
                Some(ref lm) => Some(lm.author_id),
                None => None,
            },
            None => {
                return MessageOutcome::Inactive;
            },
        };
        let transformed = apply_rules(&server_config.dictionary, content);
        let narrated = attribute_text(
            last_author,
            author_id,
            author_name,
            transformed.as_str(),
            attachment_count,
        );
        let _ = self.registry.update_last_message(
            guild_id,
            LastMessage { author_id, content: transformed, attachment_count },
        );
        match select_provider(user_config) {
            ProviderChoice::Cloud => {
                let voice = match user_config.cloud_voice {
                    Some(ref v) => v,
                    None => vstd::pervasive::unreached(),
                };
                let ssml = wrap_ssml(narrated.as_str());
                let audio = AudioConfig::narration_default();
                let body = build_synthesize_request_body(ssml.as_str(), voice, &audio);
                MessageOutcome::Prepared(SynthesisJob::Cloud { body })
            },
            ProviderChoice::Local => {
                let text = to_local_text(narrated.as_str());
                let speaker = select_local_speaker(user_config);
                MessageOutcome::Prepared(SynthesisJob::Local { text, speaker })
            },
        }
    }
}

} // verus!
