//! Per-guild channel bindings: a concurrent map from a guild identifier to
//! the text channel whose messages may trigger playback in that guild. An
//! entry is written when the bot joins a voice channel on command and is
//! never removed; rebinding overwrites (last writer wins).
use vstd::prelude::*;

use crate::concurrent_map::{binding_contents, binding_map_get, binding_map_insert};

verus! {

pub struct BindingRegistry {
    map: dashmap::DashMap<u64, u64>,
}

impl View for BindingRegistry {
    type V = Map<u64, u64>;

    closed spec fn view(&self) -> Map<u64, u64> {
        binding_contents(self.map)
    }
}

impl BindingRegistry {
    /// Relies on dashmap::DashMap::new: the new registry holds no bindings.
    #[verifier::external_body]
    pub fn new() -> (r: BindingRegistry)
        ensures
            forall|g: u64| !r@.dom().contains(g),
    {
        BindingRegistry { map: dashmap::DashMap::new() }
    }

    /// Record `channel` as the bound text channel of `guild`, replacing any
    /// earlier binding of that guild.
    pub fn bind(&mut self, guild: u64, channel: u64)
        ensures
            final(self)@ == old(self)@.insert(guild, channel),
    {
        binding_map_insert(&mut self.map, guild, channel);
    }

    /// The channel bound to `guild`, or nothing when the guild was never
    /// bound; absence is not an error.
    pub fn lookup(&self, guild: u64) -> (r: Option<u64>)
        ensures
            r == (if self@.dom().contains(guild) {
                Some(self@[guild])
            } else {
                None::<u64>
            }),
    {
        binding_map_get(&self.map, guild)
    }
}

/// Binding the same guild twice leaves only the most recent channel
/// recorded, whatever was bound before: rebinding is an idempotent upsert.
pub proof fn lemma_bind_last_wins(bindings: Map<u64, u64>, guild: u64, first: u64, second: u64)
    ensures
        bindings.insert(guild, first).insert(guild, second) == bindings.insert(guild, second),
{
    assert(bindings.insert(guild, first).insert(guild, second) =~= bindings.insert(
        guild,
        second,
    ));
}

} // verus!
