//! Clip names: a clip is exposed under the stem of the file it was decoded
//! from, the file name without its final extension. A leading dot does not
//! start an extension, so a name such as a bare dot-file is all stem.
use vstd::prelude::*;

verus! {

/// The byte of the ASCII dot that separates a stem from its extension.
pub const DOT_BYTE: u8 = 46;

/// Index where the stem of file name `name` ends: the position of the last
/// dot byte that is not the leading byte, or the whole length when there is
/// no such dot.
pub open spec fn stem_end(name: Seq<u8>) -> int
    decreases name.len(),
{
    if name.len() <= 1 {
        name.len() as int
    } else if name.last() == DOT_BYTE {
        name.len() - 1
    } else if stem_end(name.drop_last()) == name.len() - 1 {
        name.len() as int
    } else {
        stem_end(name.drop_last())
    }
}

/// The clip name exposed for a file: everything before the final dot.
pub open spec fn stem_of(name: Seq<u8>) -> Seq<u8> {
    name.subrange(0, stem_end(name))
}

pub proof fn lemma_stem_end_bounds(name: Seq<u8>)
    ensures
        0 <= stem_end(name) <= name.len(),
    decreases name.len(),
{
    if name.len() > 1 {
        lemma_stem_end_bounds(name.drop_last());
    }
}

fn stem_end_upto(name: &Vec<u8>, n: usize) -> (r: usize)
    requires
        n <= name.len(),
    ensures
        r == stem_end(name@.subrange(0, n as int)),
    decreases n,
{
    let ghost prefix = name@.subrange(0, n as int);
    if n <= 1 {
        n
    } else if name[n - 1] == DOT_BYTE {
        proof {
            assert(prefix.last() == name@[n - 1]);
        }
        n - 1
    } else {
        let e = stem_end_upto(name, n - 1);
        proof {
            assert(name@.subrange(0, n - 1) =~= prefix.drop_last());
            assert(prefix.last() == name@[n - 1]);
        }
        if e == n - 1 {
            n
        } else {
            e
        }
    }
}

/// The stem of `name`: the bytes before the final dot, the whole name when
/// no dot follows the first byte.
pub fn clip_stem(name: &Vec<u8>) -> (r: Vec<u8>)
    ensures
        r@ == stem_of(name@),
{
    proof {
        lemma_stem_end_bounds(name@);
        assert(name@.subrange(0, name@.len() as int) =~= name@);
    }
    let end = stem_end_upto(name, name.len());
    let mut out: Vec<u8> = Vec::new();
    let mut i: usize = 0;
    while i < end
        invariant
            i <= end,
            end == stem_end(name@),
            end <= name.len(),
            out@ =~= name@.subrange(0, i as int),
        decreases end - i,
    {
        out.push(name[i]);
        proof {
            assert(out@ =~= name@.subrange(0, i + 1));
        }
        i += 1;
    }
    proof {
        assert(out@ =~= stem_of(name@));
    }
    out
}

} // verus!
