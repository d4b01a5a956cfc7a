//! The fastest-wins filter.
//!
//! It consumes the merged interleaving of all source sequences and keeps
//! each block whose slot strictly exceeds every slot kept before it, so the
//! output advances monotonically and the first source to deliver a slot
//! wins.

use vstd::prelude::*;
use crate::extract::{ExtractBlock, ExtractBlockFromStream, ExtractBlockMeta};
use crate::update::Update;

verus! {

/// The state the filter reaches and the `(slot, block)` pairs it keeps
/// after consuming `items` from the state `start_slot`.
pub open spec fn run_filter<E: ExtractBlockFromStream>(
    extractor: &E,
    items: Seq<Option<Update>>,
    start_slot: u64,
) -> (u64, Seq<(u64, E::Block)>)
    decreases items.len(),
{
    if items.len() == 0 {
        (start_slot, Seq::empty())
    } else {
        let prev = run_filter(extractor, items.drop_last(), start_slot);
        match items.last() {
            None => prev,
            Some(u) => match extractor.extract_spec(u, prev.0) {
                None => prev,
                Some(p) => (p.0, prev.1.push(p)),
            },
        }
    }
}

/// The blocks of a sequence of kept `(slot, block)` pairs.
pub open spec fn blocks_of<B>(pairs: Seq<(u64, B)>) -> Seq<B> {
    pairs.map_values(|p: (u64, B)| p.1)
}

/// One step of the filter: ignores `None` bookkeeping items and updates
/// that the extractor rejects; otherwise advances `current_slot` to the
/// slot the extractor reports and hands the block out.
pub fn filter_step<E: ExtractBlockFromStream>(
    extractor: &E,
    current_slot: &mut u64,
    item: Option<Update>,
) -> (out: Option<E::Block>)
    ensures
        item is None ==> out is None && *final(current_slot) == *old(current_slot),
        item matches Some(u) ==> match extractor.extract_spec(u, *old(current_slot)) {
            None => out is None && *final(current_slot) == *old(current_slot),
            Some(p) => out == Some(p.1) && *final(current_slot) == p.0,
        },
{
    match item {
        None => None,
        Some(u) => match extractor.extract(u, *current_slot) {
            None => None,
            Some((new_slot, block)) => {
                *current_slot = new_slot;
                Some(block)
            },
        },
    }
}

/// Consumes a whole merged sequence, starting from the sentinel slot `0`,
/// and returns exactly the blocks that the filter keeps, in order.
pub fn filter_blocks<E: ExtractBlockFromStream>(extractor: &E, items: &Vec<Option<Update>>) -> (out:
    Vec<E::Block>)
    ensures
        out@ == blocks_of(run_filter(extractor, items@, 0).1),
{
    let mut current_slot: u64 = 0;
    let mut out: Vec<E::Block> = Vec::new();
    let ghost mut pairs: Seq<(u64, E::Block)> = Seq::empty();
    let mut i: usize = 0;
    while i < items.len()
        invariant
            i <= items.len(),
            (current_slot, pairs) == run_filter(extractor, items@.subrange(0, i as int), 0),
            out@ == blocks_of(pairs),
        decreases items.len() - i,
    {
        proof {
            assert(items@.subrange(0, i + 1 as int).drop_last() =~= items@.subrange(0, i as int));
            assert(items@.subrange(0, i + 1 as int).last() == items@[i as int]);
        }
        let item = items[i];
        match filter_step(extractor, &mut current_slot, item) {
            None => {
            },
            Some(block) => {
                proof {
                    let p = extractor.extract_spec(item.unwrap(), run_filter(
                        extractor,
                        items@.subrange(0, i as int),
                        0,
                    ).0).unwrap();
                    pairs = pairs.push(p);
                    assert(blocks_of(pairs) =~= blocks_of(pairs.drop_last()).push(p.1));
                }
                out.push(block);
            },
        }
        i = i + 1;
    }
    proof {
        assert(items@.subrange(0, items@.len() as int) =~= items@);
    }
    out
}

/// Law: however the per-source sequences are interleaved, the filter's
/// state never moves backwards, every kept slot strictly exceeds the
/// starting state, the kept slots are strictly increasing, and the state
/// ends at the last kept slot.
pub proof fn lemma_filter_monotone<E: ExtractBlockFromStream>(
    extractor: &E,
    items: Seq<Option<Update>>,
    start_slot: u64,
)
    ensures
        ({
            let r = run_filter(extractor, items, start_slot);
            &&& r.0 >= start_slot
            &&& forall|k: int| 0 <= k < r.1.len() ==> (#[trigger] r.1[k]).0 > start_slot
            &&& forall|j: int, k: int|
                0 <= j < k < r.1.len() ==> (#[trigger] r.1[j]).0 < (#[trigger] r.1[k]).0
            &&& forall|k: int| 0 <= k < r.1.len() ==> (#[trigger] r.1[k]).0 <= r.0
            &&& r.1.len() > 0 ==> r.0 == r.1.last().0
        }),
    decreases items.len(),
{
    if items.len() == 0 {
    } else {
        let prev = run_filter(extractor, items.drop_last(), start_slot);
        lemma_filter_monotone(extractor, items.drop_last(), start_slot);
        match items.last() {
            None => {},
            Some(u) => {
                extractor.extract_advances(u, prev.0);
            },
        }
    }
}

/// Law: soundness of the filter.  Every kept pair was extracted from the
/// update at some position of the input, against the state the filter had
/// reached just before that position: the filter invents nothing.
pub proof fn lemma_filter_sound<E: ExtractBlockFromStream>(
    extractor: &E,
    items: Seq<Option<Update>>,
    start_slot: u64,
    i: int,
)
    requires
        0 <= i < run_filter(extractor, items, start_slot).1.len(),
    ensures
        exists|k: int|
            {
                &&& 0 <= k < items.len()
                &&& (#[trigger] items[k]) matches Some(u)
                &&& extractor.extract_spec(
                    u,
                    run_filter(extractor, items.subrange(0, k), start_slot).0,
                ) == Some(run_filter(extractor, items, start_slot).1[i])
            },
    decreases items.len(),
{
    let r = run_filter(extractor, items, start_slot);
    let prev = run_filter(extractor, items.drop_last(), start_slot);
    let from_prefix = i < prev.1.len();
    if !from_prefix {
        let u = items.last().unwrap();
        let p = extractor.extract_spec(u, prev.0).unwrap();
        let k = items.len() - 1;
        assert(items.subrange(0, k) =~= items.drop_last());
        assert(r.1[i] == p);
        assert({
            &&& 0 <= k < items.len()
            &&& (items[k]) matches Some(u2)
            &&& extractor.extract_spec(
                u2,
                run_filter(extractor, items.subrange(0, k), start_slot).0,
            ) == Some(r.1[i])
        });
    } else {
        assert(r.1[i] == prev.1[i]);
        lemma_filter_sound(extractor, items.drop_last(), start_slot, i);
        let k = choose|k: int|
            {
                &&& 0 <= k < items.drop_last().len()
                &&& (#[trigger] items.drop_last()[k]) matches Some(u)
                &&& extractor.extract_spec(
                    u,
                    run_filter(extractor, items.drop_last().subrange(0, k), start_slot).0,
                ) == Some(prev.1[i])
            };
        assert(items.subrange(0, k) =~= items.drop_last().subrange(0, k));
        assert(items[k] == items.drop_last()[k]);
        assert({
            &&& 0 <= k < items.len()
            &&& (items[k]) matches Some(u2)
            &&& extractor.extract_spec(
                u2,
                run_filter(extractor, items.subrange(0, k), start_slot).0,
            ) == Some(r.1[i])
        });
    }
}

/// Law: completeness modulo the tie-break.  An update that the extractor
/// selects against the state the filter has reached just before its
/// position is kept.  With strict monotonicity of the kept slots this
/// means: for a slot that some source delivers while it is still ahead of
/// the filter's state, exactly one block is kept.
pub proof fn lemma_filter_complete<E: ExtractBlockFromStream>(
    extractor: &E,
    items: Seq<Option<Update>>,
    start_slot: u64,
    k: int,
)
    requires
        0 <= k < items.len(),
        items[k] is Some,
        extractor.extract_spec(
            items[k].unwrap(),
            run_filter(extractor, items.subrange(0, k), start_slot).0,
        ) is Some,
    ensures
        run_filter(extractor, items, start_slot).1.contains(
            extractor.extract_spec(
                items[k].unwrap(),
                run_filter(extractor, items.subrange(0, k), start_slot).0,
            ).unwrap(),
        ),
    decreases items.len(),
{
    let prev = run_filter(extractor, items.drop_last(), start_slot);
    let r = run_filter(extractor, items, start_slot);
    if k == items.len() - 1 {
        assert(items.subrange(0, k) =~= items.drop_last());
        let p = extractor.extract_spec(items[k].unwrap(), prev.0).unwrap();
        assert(r.1.last() == p);
        assert(r.1.contains(p));
    } else {
        assert(items.drop_last().subrange(0, k) =~= items.subrange(0, k));
        lemma_filter_complete(extractor, items.drop_last(), start_slot, k);
        let p = extractor.extract_spec(
            items[k].unwrap(),
            run_filter(extractor, items.subrange(0, k), start_slot).0,
        ).unwrap();
        let j = choose|j: int| 0 <= j < prev.1.len() && prev.1[j] == p;
        match items.last() {
            None => {},
            Some(u) => {
                match extractor.extract_spec(u, prev.0) {
                    None => {},
                    Some(q) => {
                        assert(r.1[j] == p);
                    },
                }
            },
        }
        assert(r.1.contains(p));
    }
}

/// For the block extractor, the reported slot of every kept pair is the
/// slot carried by the block itself.
pub proof fn lemma_extract_block_reports_own_slot(
    extractor: &ExtractBlock,
    items: Seq<Option<Update>>,
    start_slot: u64,
)
    ensures
        forall|i: int|
            0 <= i < run_filter(extractor, items, start_slot).1.len() ==> (#[trigger] run_filter(
                extractor,
                items,
                start_slot,
            ).1[i]).1.slot == run_filter(extractor, items, start_slot).1[i].0,
    decreases items.len(),
{
    if items.len() == 0 {
    } else {
        lemma_extract_block_reports_own_slot(extractor, items.drop_last(), start_slot);
        let r = run_filter(extractor, items, start_slot);
        let prev = run_filter(extractor, items.drop_last(), start_slot);
        assert forall|i: int| 0 <= i < r.1.len() implies (#[trigger] r.1[i]).1.slot == r.1[i].0 by {
            if i < prev.1.len() {
                assert(r.1[i] == prev.1[i]);
            } else {
                assert(r.1[i] == r.1.last());
            }
        }
    }
}

/// Law: the blocks that the block extractor's filter emits are strictly
/// increasing in their own slot field, whatever the sources delivered.
pub proof fn lemma_block_output_strictly_increasing(
    extractor: &ExtractBlock,
    items: Seq<Option<Update>>,
    start_slot: u64,
)
    ensures
        ({
            let out = blocks_of(run_filter(extractor, items, start_slot).1);
            forall|i: int, j: int|
                0 <= i < j < out.len() ==> (#[trigger] out[i]).slot < (#[trigger] out[j]).slot
        }),
{
    lemma_filter_monotone(extractor, items, start_slot);
    lemma_extract_block_reports_own_slot(extractor, items, start_slot);
}

/// For the blockmeta extractor, the reported slot of every kept pair is
/// the slot carried by the header itself.
pub proof fn lemma_extract_blockmeta_reports_own_slot(
    extractor: &ExtractBlockMeta,
    items: Seq<Option<Update>>,
    start_slot: u64,
)
    ensures
        forall|i: int|
            0 <= i < run_filter(extractor, items, start_slot).1.len() ==> (#[trigger] run_filter(
                extractor,
                items,
                start_slot,
            ).1[i]).1.slot == run_filter(extractor, items, start_slot).1[i].0,
    decreases items.len(),
{
    if items.len() == 0 {
    } else {
        lemma_extract_blockmeta_reports_own_slot(extractor, items.drop_last(), start_slot);
        let r = run_filter(extractor, items, start_slot);
        let prev = run_filter(extractor, items.drop_last(), start_slot);
        assert forall|i: int| 0 <= i < r.1.len() implies (#[trigger] r.1[i]).1.slot == r.1[i].0 by {
            if i < prev.1.len() {
                assert(r.1[i] == prev.1[i]);
            } else {
                assert(r.1[i] == r.1.last());
            }
        }
    }
}

/// Law: the headers that the blockmeta extractor's filter emits are
/// strictly increasing in their own slot field.
pub proof fn lemma_blockmeta_output_strictly_increasing(
    extractor: &ExtractBlockMeta,
    items: Seq<Option<Update>>,
    start_slot: u64,
)
    ensures
        ({
            let out = blocks_of(run_filter(extractor, items, start_slot).1);
            forall|i: int, j: int|
                0 <= i < j < out.len() ==> (#[trigger] out[i]).slot < (#[trigger] out[j]).slot
        }),
{
    lemma_filter_monotone(extractor, items, start_slot);
    lemma_extract_blockmeta_reports_own_slot(extractor, items, start_slot);
}

} // verus!
