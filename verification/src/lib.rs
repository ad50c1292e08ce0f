//! Core logic of a voice-channel soundboard bot: a sound cache keyed by clip
//! name, a per-guild binding registry, message-dispatch eligibility, and
//! command planning. Gateway, voice transport and disk I/O live outside.
use vstd::prelude::*;

pub mod binding_registry;
pub mod clip;
pub mod commands;
pub mod concurrent_map;
pub mod dispatcher;
pub mod sound_cache;

verus! {

/// Fixed playback gain, in thousandths of nominal volume.
pub const PLAYBACK_VOLUME_PERMILLE: u64 = 50;

pub fn playback_volume_permille() -> (r: u64)
    ensures
        r == PLAYBACK_VOLUME_PERMILLE,
{
    PLAYBACK_VOLUME_PERMILLE
}

} // verus!
