//! The fair, non-prioritizing merge of the source sequences.
//!
//! On each round every source that still has an item contributes it, in
//! source order, so no source starves another; the merge buffers nothing
//! per source — a slower source simply contributes fewer items.

use vstd::prelude::*;
use crate::update::Update;

verus! {

/// The views of the recorded source sequences.
pub open spec fn views_of(sources: Seq<Vec<Option<Update>>>) -> Seq<Seq<Option<Update>>> {
    sources.map_values(|v: Vec<Option<Update>>| v@)
}

/// The length of the longest source sequence: the number of rounds the
/// merge makes.
pub open spec fn max_len(ss: Seq<Seq<Option<Update>>>) -> nat
    decreases ss.len(),
{
    if ss.len() == 0 {
        0
    } else {
        let rest = max_len(ss.drop_last());
        if ss.last().len() > rest {
            ss.last().len()
        } else {
            rest
        }
    }
}

/// What round `j` takes from the first `k` sources: the item at position
/// `j` of each source that still has one, in source order.
pub open spec fn column_upto(ss: Seq<Seq<Option<Update>>>, j: int, k: int) -> Seq<Option<Update>>
    decreases k,
{
    if k <= 0 {
        Seq::empty()
    } else {
        column_upto(ss, j, k - 1) + if 0 <= j < ss[k - 1].len() {
            seq![ss[k - 1][j]]
        } else {
            Seq::empty()
        }
    }
}

/// The first `j` rounds of the round-robin interleave.
pub open spec fn rounds_upto(ss: Seq<Seq<Option<Update>>>, j: int) -> Seq<Option<Update>>
    decreases j,
{
    if j <= 0 {
        Seq::empty()
    } else {
        rounds_upto(ss, j - 1) + column_upto(ss, j - 1, ss.len() as int)
    }
}

/// The round-robin interleave of all source sequences.
pub open spec fn round_robin_merge(ss: Seq<Seq<Option<Update>>>) -> Seq<Option<Update>> {
    rounds_upto(ss, max_len(ss) as int)
}

/// The number of rounds the merge of `sources` makes.
fn longest_source(sources: &Vec<Vec<Option<Update>>>) -> (m: usize)
    ensures
        m == max_len(views_of(sources@)),
{
    let ghost vs = views_of(sources@);
    let mut m: usize = 0;
    let mut k: usize = 0;
    while k < sources.len()
        invariant
            k <= sources.len(),
            vs == views_of(sources@),
            m == max_len(vs.subrange(0, k as int)),
        decreases sources.len() - k,
    {
        proof {
            assert(vs.subrange(0, k + 1 as int).drop_last() =~= vs.subrange(0, k as int));
            assert(vs.subrange(0, k + 1 as int).last() == vs[k as int]);
        }
        if sources[k].len() > m {
            m = sources[k].len();
        }
        k = k + 1;
    }
    proof {
        assert(vs.subrange(0, vs.len() as int) =~= vs);
    }
    m
}

/// Merges the recorded source sequences with the fair round-robin
/// discipline, exactly as `round_robin_merge` describes.
pub fn merge_round_robin(sources: &Vec<Vec<Option<Update>>>) -> (merged: Vec<Option<Update>>)
    ensures
        merged@ == round_robin_merge(views_of(sources@)),
{
    let ghost vs = views_of(sources@);
    let rounds = longest_source(sources);
    let mut merged: Vec<Option<Update>> = Vec::new();
    let mut j: usize = 0;
    while j < rounds
        invariant
            j <= rounds,
            rounds == max_len(vs),
            vs == views_of(sources@),
            merged@ == rounds_upto(vs, j as int),
        decreases rounds - j,
    {
        let mut k: usize = 0;
        while k < sources.len()
            invariant
                k <= sources.len(),
                j < rounds,
                rounds == max_len(vs),
                vs == views_of(sources@),
                merged@ == rounds_upto(vs, j as int) + column_upto(vs, j as int, k as int),
            decreases sources.len() - k,
        {
            if j < sources[k].len() {
                merged.push(sources[k][j]);
                proof {
                    assert(merged@ =~= rounds_upto(vs, j as int) + column_upto(
                        vs,
                        j as int,
                        k + 1 as int,
                    ));
                }
            } else {
                proof {
                    assert(merged@ =~= rounds_upto(vs, j as int) + column_upto(
                        vs,
                        j as int,
                        k + 1 as int,
                    ));
                }
            }
            k = k + 1;
        }
        proof {
            assert(rounds_upto(vs, j + 1 as int) == rounds_upto(vs, j as int) + column_upto(
                vs,
                j as int,
                vs.len() as int,
            ));
        }
        j = j + 1;
    }
    merged
}

} // verus!
