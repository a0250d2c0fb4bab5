//! The session registry: the single source of truth for "is narration
//! active in this guild". At most one session per guild, by construction.
//!
//! The registry itself is a sequential structure; callers serialize the
//! operations for one guild (the embedding runs them under a per-guild
//! lock, so operations on different guilds never wait on one another).

use vstd::prelude::*;
use vstd::hash_map::HashMapWithView;
use crate::session::{Session, SessionSpec, LastMessage, fresh_session_spec, with_last_message};

verus! {

/// Why a registry operation was refused.
#[derive(Clone, Copy, Debug, PartialEq, Eq, Structural)]
pub enum RegistryError {
    /// `create` found an entry for the guild already present.
    AlreadySetUp,
    /// `remove` or a mutation found no entry for the guild.
    NotSetUp,
}

/// What `create` does to the registry model: the new model and whether the
/// call succeeds. It fails without mutation when the guild already has an
/// entry, and inserts atomically otherwise.
pub open spec fn create_step(m: Map<u64, SessionSpec>, guild_id: u64, s: SessionSpec) -> (
    Map<u64, SessionSpec>,
    bool,
) {
    if m.contains_key(guild_id) {
        (m, false)
    } else {
        (m.insert(guild_id, s), true)
    }
}

/// The map from guild identity to its active session.
pub struct SessionRegistry {
    m: HashMapWithView<u64, Session>,
}

impl View for SessionRegistry {
    type V = Map<u64, SessionSpec>;

    closed spec fn view(&self) -> Map<u64, SessionSpec> {
        self.m@.map_values(|s: Session| s@)
    }
}

impl SessionRegistry {
    /// An empty registry: no guild is set up.
    pub fn new() -> (r: SessionRegistry)
        ensures
            r@ == Map::<u64, SessionSpec>::empty(),
    {
        broadcast use vstd::std_specs::hash::axiom_u64_obeys_hash_table_key_model;

        let r = SessionRegistry { m: HashMapWithView::new() };
        proof {
            assert(r@ =~= Map::<u64, SessionSpec>::empty());
        }
        r
    }

    /// Whether the guild currently has a session.
    pub fn contains(&self, guild_id: u64) -> (r: bool)
        ensures
            r == self@.contains_key(guild_id),
    {
        self.m.contains_key(&guild_id)
    }

    /// Sets a guild up: fails with `AlreadySetUp` and without mutation when
    /// an entry exists, otherwise inserts a fresh session and returns it.
    pub fn create(
        &mut self,
        guild_id: u64,
        text_channel: u64,
        voice_channel: u64,
        created_at: u64,
    ) -> (res: Result<Session, RegistryError>)
        ensures
            final(self)@ == create_step(
                old(self)@,
                guild_id,
                fresh_session_spec(guild_id, text_channel, voice_channel, created_at),
            ).0,
            res is Ok <==> !old(self)@.contains_key(guild_id),
            res is Ok ==> res->Ok_0@ == fresh_session_spec(
                guild_id,
                text_channel,
                voice_channel,
                created_at,
            ),
            res is Err ==> res->Err_0 == RegistryError::AlreadySetUp && final(self)@ == old(
                self,
            )@,
    {
        if self.m.contains_key(&guild_id) {
            Err(RegistryError::AlreadySetUp)
        } else {
            let s = Session::new(guild_id, text_channel, voice_channel, created_at);
            self.m.insert(guild_id, s);
            proof {
                assert(self@ =~= old(self)@.insert(
                    guild_id,
                    fresh_session_spec(guild_id, text_channel, voice_channel, created_at),
                ));
            }
            Ok(Session::new(guild_id, text_channel, voice_channel, created_at))
        }
    }

    /// Tears a guild down: fails with `NotSetUp` and without mutation when
    /// no entry exists, otherwise removes and returns the session.
    pub fn remove(&mut self, guild_id: u64) -> (res: Result<Session, RegistryError>)
        ensures
            res is Ok <==> old(self)@.contains_key(guild_id),
            res is Ok ==> res->Ok_0@ == old(self)@[guild_id] && final(self)@ == old(
                self,
            )@.remove(guild_id),
            res is Err ==> res->Err_0 == RegistryError::NotSetUp && final(self)@ == old(self)@,
    {
        match self.m.remove(&guild_id) {
            Some(s) => {
                proof {
                    assert(self@ =~= old(self)@.remove(guild_id));
                }
                Ok(s)
            },
            None => Err(RegistryError::NotSetUp),
        }
    }

    /// Non-mutating read of a guild's session.
    pub fn lookup(&self, guild_id: u64) -> (res: Option<&Session>)
        ensures
            match res {
                Some(s) => self@.contains_key(guild_id) && s@ == self@[guild_id],
                None => !self@.contains_key(guild_id),
            },
    {
        self.m.get(&guild_id)
    }

    /// The registry's read-modify-write, instantiated for the one mutation
    /// the pipeline makes: replacing a session's last-message memory.
    pub fn update_last_message(&mut self, guild_id: u64, last: LastMessage) -> (res: Result<
        (),
        RegistryError,
    >)
        ensures
            res is Ok <==> old(self)@.contains_key(guild_id),
            res is Ok ==> final(self)@ == old(self)@.insert(
                guild_id,
                with_last_message(old(self)@[guild_id], last@),
            ),
            res is Err ==> res->Err_0 == RegistryError::NotSetUp && final(self)@ == old(self)@,
    {
        match self.m.get(&guild_id) {
            Some(s) => {
                let updated = Session {
                    guild_id: s.guild_id,
                    text_channel: s.text_channel,
                    voice_channel: s.voice_channel,
                    created_at: s.created_at,
                    last_message: Some(last),
                };
                self.m.insert(guild_id, updated);
                proof {
                    assert(self@ =~= old(self)@.insert(
                        guild_id,
                        with_last_message(old(self)@[guild_id], last@),
                    ));
                }
                Ok(())
            },
            None => Err(RegistryError::NotSetUp),
        }
    }
}

/// How often `create` succeeds when a burst of `create` calls for one guild
/// is run one after another, as the per-guild lock serializes them.
pub open spec fn create_successes(m: Map<u64, SessionSpec>, guild_id: u64, attempts: Seq<
    SessionSpec,
>) -> int
    decreases attempts.len(),
{
    if attempts.len() == 0 {
        0
    } else {
        let stepped = create_step(m, guild_id, attempts[0]);
        (if stepped.1 {
            1int
        } else {
            0int
        }) + create_successes(stepped.0, guild_id, attempts.skip(1))
    }
}

/// While a guild has an entry, every `create` for it fails.
pub proof fn lemma_create_successes_none(
    m: Map<u64, SessionSpec>,
    guild_id: u64,
    attempts: Seq<SessionSpec>,
)
    requires
        m.contains_key(guild_id),
    ensures
        create_successes(m, guild_id, attempts) == 0,
    decreases attempts.len(),
{
    if attempts.len() > 0 {
        lemma_create_successes_none(m, guild_id, attempts.skip(1));
    }
}

/// Registry exclusivity: when several `create` calls for the same guild are
/// serialized against a registry with no entry for that guild, exactly one
/// succeeds and the rest fail.
pub proof fn lemma_registry_exclusivity(
    m: Map<u64, SessionSpec>,
    guild_id: u64,
    attempts: Seq<SessionSpec>,
)
    requires
        !m.contains_key(guild_id),
        attempts.len() > 0,
    ensures
        create_successes(m, guild_id, attempts) == 1,
{
    let stepped = create_step(m, guild_id, attempts[0]);
    assert(stepped.1);
    lemma_create_successes_none(stepped.0, guild_id, attempts.skip(1));
}

/// Registry round trip: creating a guild and then removing it restores the
/// registry, so a lookup finds nothing and a second removal fails.
pub proof fn lemma_registry_round_trip(m: Map<u64, SessionSpec>, guild_id: u64, s: SessionSpec)
    requires
        !m.contains_key(guild_id),
    ensures
        !m.insert(guild_id, s).remove(guild_id).contains_key(guild_id),
        m.insert(guild_id, s).remove(guild_id) == m,
{
    assert(m.insert(guild_id, s).remove(guild_id) =~= m);
}

} // verus!
