//! The sound cache: a concurrent map from clip name to the handle of a
//! decoded audio payload, built once from a directory scan and read on
//! every inbound message. Lookup is exact-match on the raw message text.
use vstd::prelude::*;

use crate::clip::{clip_stem, stem_of};
use crate::concurrent_map::{sound_contents, sound_map_get, sound_map_insert, sound_map_len};

verus! {

/// One regular file seen by the startup scan: its bare file name and, when
/// decoding succeeded, the handle of the decoded payload. A file that did
/// not decode carries no payload and is skipped without aborting the scan.
pub struct ScannedFile {
    pub file_name: Vec<u8>,
    pub payload: Option<u64>,
}

pub open spec fn scanned_view(files: Seq<ScannedFile>) -> Seq<(Seq<u8>, Option<u64>)> {
    files.map_values(|f: ScannedFile| (f.file_name@, f.payload))
}

/// The map a scan leaves behind: every decodable file contributes its stem,
/// later files overwriting earlier ones with the same stem.
pub open spec fn loaded_map(files: Seq<(Seq<u8>, Option<u64>)>) -> Map<Seq<u8>, u64>
    decreases files.len(),
{
    if files.len() == 0 {
        Map::empty()
    } else {
        let rest = loaded_map(files.drop_last());
        match files.last().1 {
            Some(payload) => rest.insert(stem_of(files.last().0), payload),
            None => rest,
        }
    }
}

pub struct SoundCache {
    map: dashmap::DashMap<Vec<u8>, u64>,
}

impl View for SoundCache {
    type V = Map<Seq<u8>, u64>;

    closed spec fn view(&self) -> Map<Seq<u8>, u64> {
        sound_contents(self.map)
    }
}

impl SoundCache {
    /// Relies on dashmap::DashMap::new: the new cache holds no clips.
    #[verifier::external_body]
    pub fn new() -> (r: SoundCache)
        ensures
            forall|k: Seq<u8>| !r@.dom().contains(k),
    {
        SoundCache { map: dashmap::DashMap::new() }
    }

    /// Insert the decoded payload of the file called `file_name` under the
    /// file's stem; an earlier clip with the same stem is overwritten.
    pub fn insert_clip(&mut self, file_name: &Vec<u8>, payload: u64)
        ensures
            final(self)@ == old(self)@.insert(stem_of(file_name@), payload),
    {
        let stem = clip_stem(file_name);
        sound_map_insert(&mut self.map, stem, payload);
    }

    /// Exact-match lookup by the raw message text: no tokenizing, no fuzzy
    /// matching, no case folding.
    pub fn lookup(&self, text: &Vec<u8>) -> (r: Option<u64>)
        ensures
            r == (if self@.dom().contains(text@) {
                Some(self@[text@])
            } else {
                None::<u64>
            }),
    {
        sound_map_get(&self.map, text)
    }

    /// How many clips the cache holds.
    pub fn count(&self) -> (r: usize)
        requires
            self@.dom().finite(),
        ensures
            r as nat == self@.dom().len(),
    {
        sound_map_len(&self.map)
    }

    /// Build the cache from the outcome of a directory scan: each decodable
    /// file goes in under its stem, each non-decodable file is skipped, and
    /// a failure never aborts the rest of the scan.
    pub fn load(files: &Vec<ScannedFile>) -> (r: SoundCache)
        ensures
            r@ == loaded_map(scanned_view(files@)),
    {
        let ghost all = scanned_view(files@);
        let mut cache = SoundCache::new();
        proof {
            assert(cache@ =~= loaded_map(all.take(0)));
        }
        let mut i: usize = 0;
        while i < files.len()
            invariant
                i <= files.len(),
                all == scanned_view(files@),
                cache@ == loaded_map(all.take(i as int)),
            decreases files.len() - i,
        {
            let file = &files[i];
            match file.payload {
                Some(payload) => {
                    cache.insert_clip(&file.file_name, payload);
                },
                None => {},
            }
            proof {
                assert(all.take(i + 1).drop_last() =~= all.take(i as int));
                assert(all.take(i + 1).last() == all[i as int]);
            }
            i += 1;
        }
        proof {
            assert(all.take(files@.len() as int) =~= all);
        }
        cache
    }
}

/// The clip names a scan produces: exactly the stems of its decodable files.
pub open spec fn decodable_stems(files: Seq<(Seq<u8>, Option<u64>)>) -> Set<Seq<u8>> {
    Set::new(
        |k: Seq<u8>|
            exists|i: int|
                0 <= i < files.len() && files[i].1 is Some && stem_of(files[i].0) == k,
    )
}

/// How many of the scanned files were decodable.
pub open spec fn decodable_count(files: Seq<(Seq<u8>, Option<u64>)>) -> int
    decreases files.len(),
{
    if files.len() == 0 {
        0
    } else {
        decodable_count(files.drop_last()) + if files.last().1 is Some {
            1int
        } else {
            0int
        }
    }
}

/// The stems of the decodable files, pairwise distinct.
pub open spec fn stems_distinct(files: Seq<(Seq<u8>, Option<u64>)>) -> bool {
    forall|i: int, j: int|
        0 <= i < j < files.len() && files[i].1 is Some && files[j].1 is Some
            ==> stem_of(files[i].0) != stem_of(files[j].0)
}

/// A scan fills the cache with the stems of its decodable files and with
/// nothing else: non-decodable files leave no entry behind.
pub proof fn lemma_loaded_dom(files: Seq<(Seq<u8>, Option<u64>)>)
    ensures
        loaded_map(files).dom() =~= decodable_stems(files),
        loaded_map(files).dom().finite(),
    decreases files.len(),
{
    if files.len() == 0 {
        assert forall|k: Seq<u8>| !decodable_stems(files).contains(k) by {
            if exists|i: int| 0 <= i < files.len() && files[i].1 is Some && stem_of(files[i].0)
                == k {
                let i = choose|i: int|
                    0 <= i < files.len() && files[i].1 is Some && stem_of(files[i].0) == k;
                assert(false);
            }
        }
    } else {
        let rest = files.drop_last();
        lemma_loaded_dom(rest);
        assert forall|k: Seq<u8>|
            loaded_map(files).dom().contains(k) implies decodable_stems(files).contains(k) by {
            if files.last().1 is Some && k == stem_of(files.last().0) {
                assert(files[files.len() - 1].1 is Some && stem_of(files[files.len() - 1].0)
                    == k);
            } else {
                assert(decodable_stems(rest).contains(k));
                let i = choose|i: int|
                    0 <= i < rest.len() && rest[i].1 is Some && stem_of(rest[i].0) == k;
                assert(files[i].1 is Some && stem_of(files[i].0) == k);
            }
        }
        assert forall|k: Seq<u8>|
            decodable_stems(files).contains(k) implies loaded_map(files).dom().contains(k) by {
            let i = choose|i: int|
                0 <= i < files.len() && files[i].1 is Some && stem_of(files[i].0) == k;
            if i < files.len() - 1 {
                assert(rest[i].1 is Some && stem_of(rest[i].0) == k);
                assert(decodable_stems(rest).contains(k));
            }
        }
    }
}

/// With pairwise-distinct stems among the decodable files, a scan of N
/// decodable and M non-decodable files ends with exactly N clips.
pub proof fn lemma_cache_count(files: Seq<(Seq<u8>, Option<u64>)>)
    requires
        stems_distinct(files),
    ensures
        loaded_map(files).dom().finite(),
        loaded_map(files).dom().len() == decodable_count(files),
    decreases files.len(),
{
    lemma_loaded_dom(files);
    if files.len() > 0 {
        let rest = files.drop_last();
        assert(stems_distinct(rest)) by {
            assert forall|i: int, j: int|
                0 <= i < j < rest.len() && rest[i].1 is Some && rest[j].1 is Some implies stem_of(
                rest[i].0,
            ) != stem_of(rest[j].0) by {
                assert(files[i] == rest[i] && files[j] == rest[j]);
            }
        }
        lemma_cache_count(rest);
        if files.last().1 is Some {
            let k = stem_of(files.last().0);
            assert(!loaded_map(rest).dom().contains(k)) by {
                lemma_loaded_dom(rest);
                if decodable_stems(rest).contains(k) {
                    let i = choose|i: int|
                        0 <= i < rest.len() && rest[i].1 is Some && stem_of(rest[i].0) == k;
                    assert(files[i] == rest[i]);
                    assert(stem_of(files[i].0) != stem_of(files[files.len() - 1].0));
                }
            }
        }
    }
}

/// On a stem collision the last-loaded file wins: one more decodable file
/// leaves its own payload under its stem, whatever was loaded before.
pub proof fn lemma_last_write_wins(
    files: Seq<(Seq<u8>, Option<u64>)>,
    name: Seq<u8>,
    payload: u64,
)
    ensures
        loaded_map(files.push((name, Some(payload)))) == loaded_map(files).insert(
            stem_of(name),
            payload,
        ),
{
    let full = files.push((name, Some(payload)));
    assert(full.drop_last() =~= files);
    assert(full.last() == (name, Some(payload)));
}

} // verus!
