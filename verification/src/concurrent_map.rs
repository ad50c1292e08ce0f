//! Trusted view of `dashmap::DashMap`, the self-synchronizing concurrent
//! associative container that backs both registries. The two instantiations
//! used by the library (guild bindings and the sound cache) each get a name
//! for their contents and thin wrappers around the methods the logic calls.
use vstd::prelude::*;

verus! {

#[verifier::external_type_specification]
#[verifier::external_body]
#[verifier::reject_recursive_types(K)]
#[verifier::reject_recursive_types(V)]
#[verifier::reject_recursive_types(S)]
pub struct ExDashMap<K, V, S>(dashmap::DashMap<K, V, S>);

/// The entries of a guild-to-channel map, as a mathematical map.
pub uninterp spec fn binding_contents(m: dashmap::DashMap<u64, u64>) -> Map<u64, u64>;

/// The entries of a clip-name-to-payload map, as a mathematical map.
pub uninterp spec fn sound_contents(m: dashmap::DashMap<Vec<u8>, u64>) -> Map<Seq<u8>, u64>;

/// Relies on dashmap::DashMap::insert: stores `channel` under `guild`,
/// replacing any previous entry for that key (last writer wins).
#[verifier::external_body]
pub(crate) fn binding_map_insert(m: &mut dashmap::DashMap<u64, u64>, guild: u64, channel: u64)
    ensures
        binding_contents(*final(m)) == binding_contents(*old(m)).insert(guild, channel),
{
    m.insert(guild, channel);
}

/// Relies on dashmap::DashMap::get: returns the value stored under `guild`,
/// or nothing when the key is absent.
#[verifier::external_body]
pub(crate) fn binding_map_get(m: &dashmap::DashMap<u64, u64>, guild: u64) -> (r: Option<u64>)
    ensures
        r == (if binding_contents(*m).dom().contains(guild) {
            Some(binding_contents(*m)[guild])
        } else {
            None::<u64>
        }),
{
    match m.get(&guild) {
        Some(entry) => Some(*entry.value()),
        None => None,
    }
}

/// Relies on dashmap::DashMap::insert: stores `payload` under `name`,
/// replacing any previous entry for that key (last writer wins).
#[verifier::external_body]
pub(crate) fn sound_map_insert(m: &mut dashmap::DashMap<Vec<u8>, u64>, name: Vec<u8>, payload: u64)
    ensures
        sound_contents(*final(m)) == sound_contents(*old(m)).insert(name@, payload),
{
    m.insert(name, payload);
}

/// Relies on dashmap::DashMap::get: returns the value stored under `name`,
/// or nothing when the key is absent.
#[verifier::external_body]
pub(crate) fn sound_map_get(m: &dashmap::DashMap<Vec<u8>, u64>, name: &Vec<u8>) -> (r: Option<
    u64,
>)
    ensures
        r == (if sound_contents(*m).dom().contains(name@) {
            Some(sound_contents(*m)[name@])
        } else {
            None::<u64>
        }),
{
    match m.get(name) {
        Some(entry) => Some(*entry.value()),
        None => None,
    }
}

/// Relies on dashmap::DashMap::len: counts the entries over all shards.
#[verifier::external_body]
pub(crate) fn sound_map_len(m: &dashmap::DashMap<Vec<u8>, u64>) -> (r: usize)
    requires
        sound_contents(*m).dom().finite(),
    ensures
        r as nat == sound_contents(*m).dom().len(),
{
    m.len()
}

} // verus!
