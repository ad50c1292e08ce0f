//! The dispatcher: for each inbound text message, decide whether its
//! channel is eligible — the channel bound to the guild, or the text
//! channel numerically co-located with the bot's current voice channel —
//! and if so whether the raw message text names a cached clip to play.
use vstd::prelude::*;

use crate::binding_registry::BindingRegistry;
use crate::sound_cache::SoundCache;

verus! {

/// What the dispatcher learns about one inbound message before any channel
/// resolution: the author kind, the owning guild (absent for a direct
/// message), whether the bot holds a confirmed voice connection in that
/// guild, the bot's current voice channel (its identifier shares a numeric
/// value with the co-located text channel), and the message's channel.
pub struct MessageFacts {
    pub author_is_bot: bool,
    pub guild_id: Option<u64>,
    pub has_connection: bool,
    pub bot_channel: Option<u64>,
    pub channel_id: u64,
}

/// The checks that precede the eligibility rule: not authored by a bot,
/// sent in a guild, and the bot has a confirmed connection and channel.
pub open spec fn prechecks_pass(facts: MessageFacts) -> bool {
    &&& !facts.author_is_bot
    &&& facts.guild_id is Some
    &&& facts.has_connection
    &&& facts.bot_channel is Some
}

/// First OR'd eligibility condition: the message came through the channel
/// bound to its guild.
pub open spec fn bound_channel_matches(bindings: Map<u64, u64>, facts: MessageFacts) -> bool {
    facts.guild_id matches Some(guild) && bindings.dom().contains(guild) && bindings[guild]
        == facts.channel_id
}

/// Second OR'd eligibility condition: the message came through the text
/// channel co-located with the bot's current voice channel.
pub open spec fn colocated_channel_matches(facts: MessageFacts) -> bool {
    facts.bot_channel matches Some(bot_channel) && facts.channel_id == bot_channel
}

/// A message may trigger playback only when the prechecks pass and at
/// least one of the two eligibility conditions holds.
pub open spec fn message_eligible(bindings: Map<u64, u64>, facts: MessageFacts) -> bool {
    prechecks_pass(facts) && (bound_channel_matches(bindings, facts) || colocated_channel_matches(
        facts,
    ))
}

/// Decide eligibility for one message, consulting the binding registry.
pub fn check_eligibility(registry: &BindingRegistry, facts: &MessageFacts) -> (r: bool)
    ensures
        r == message_eligible(registry@, *facts),
{
    if facts.author_is_bot {
        return false;
    }
    let guild = match facts.guild_id {
        Some(guild) => guild,
        None => { return false; },
    };
    if !facts.has_connection {
        return false;
    }
    let bot_channel = match facts.bot_channel {
        Some(bot_channel) => bot_channel,
        None => { return false; },
    };
    let bound_matches = match registry.lookup(guild) {
        Some(channel) => channel == facts.channel_id,
        None => false,
    };
    bound_matches || facts.channel_id == bot_channel
}

/// The playback decision once the co-located channel has resolved: a clip
/// plays only when that channel is a standard guild channel and the raw
/// message text names a cached clip.
pub open spec fn playback_selection(
    sounds: Map<Seq<u8>, u64>,
    is_guild_channel: bool,
    text: Seq<u8>,
) -> Option<u64> {
    if is_guild_channel && sounds.dom().contains(text) {
        Some(sounds[text])
    } else {
        None
    }
}

/// Pick the clip an eligible message plays, if any: `is_guild_channel`
/// says whether the resolved co-located channel is a standard guild
/// channel, `text` is the whole raw message text.
pub fn select_playback(cache: &SoundCache, is_guild_channel: bool, text: &Vec<u8>) -> (r: Option<
    u64,
>)
    ensures
        r == playback_selection(cache@, is_guild_channel, text@),
{
    if !is_guild_channel {
        return None;
    }
    cache.lookup(text)
}

/// Everything one message leads to. `resolution` is what became of
/// resolving the co-located channel — nothing on a resolution error, else
/// whether it is a standard guild channel; resolution is only attempted
/// for an eligible message. Playback is requested exactly when the message
/// is eligible, the channel resolved to a standard guild channel, and the
/// text names a cached clip.
pub open spec fn dispatch_outcome(
    bindings: Map<u64, u64>,
    sounds: Map<Seq<u8>, u64>,
    facts: MessageFacts,
    resolution: Option<bool>,
    text: Seq<u8>,
) -> Option<u64> {
    if message_eligible(bindings, facts) && resolution matches Some(true) {
        playback_selection(sounds, true, text)
    } else {
        None
    }
}

/// Eligibility is monotonic in its two OR'd conditions: once the prechecks
/// pass, making either the bound-channel match or the co-located-channel
/// match true makes the message eligible, independent of the other.
pub proof fn lemma_eligibility_monotonic(bindings: Map<u64, u64>, facts: MessageFacts)
    ensures
        prechecks_pass(facts) && bound_channel_matches(bindings, facts) ==> message_eligible(
            bindings,
            facts,
        ),
        prechecks_pass(facts) && colocated_channel_matches(facts) ==> message_eligible(
            bindings,
            facts,
        ),
{
}

/// A message whose exact text names no cached clip never triggers
/// playback, however eligible its channel is.
pub proof fn lemma_unknown_text_never_plays(
    bindings: Map<u64, u64>,
    sounds: Map<Seq<u8>, u64>,
    facts: MessageFacts,
    resolution: Option<bool>,
    text: Seq<u8>,
)
    requires
        !sounds.dom().contains(text),
    ensures
        dispatch_outcome(bindings, sounds, facts, resolution, text) is None,
{
}

/// A message sent in a non-eligible channel never triggers playback, even
/// when its text names a cached clip.
pub proof fn lemma_ineligible_never_plays(
    bindings: Map<u64, u64>,
    sounds: Map<Seq<u8>, u64>,
    facts: MessageFacts,
    resolution: Option<bool>,
    text: Seq<u8>,
)
    requires
        !message_eligible(bindings, facts),
    ensures
        dispatch_outcome(bindings, sounds, facts, resolution, text) is None,
{
}

} // verus!
