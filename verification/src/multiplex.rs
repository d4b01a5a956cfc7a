//! The multiplex assembler.
//!
//! Validates the configuration, merges the per-source sequences with the
//! fair round-robin discipline, and pipes the merged sequence through the
//! fastest-wins filter.  The live assembler wires the same stages around
//! live subscriptions and yields the blocks lazily; this function states
//! and checks what that pipeline produces from what the sources deliver.

use vstd::prelude::*;
use crate::config::{validate_config, CommitmentLevel, ConfigError, GrpcSourceConfig};
use crate::extract::{ExtractBlock, ExtractBlockFromStream};
use crate::filter::{
    blocks_of, filter_blocks, lemma_block_output_strictly_increasing, run_filter,
};
use crate::merge::{merge_round_robin, round_robin_merge, views_of};
use crate::update::Update;

verus! {

/// Runs the whole multiplex over recorded source sequences: one sequence
/// of optional updates per configured source.
///
/// Fatal configuration errors are reported exactly as `validate_config`
/// states them; on a valid configuration the result is exactly the
/// fastest-wins filtering of the fair merge, started at the sentinel
/// slot `0`.
pub fn run_multiplex<E: ExtractBlockFromStream>(
    grpc_sources: &Vec<GrpcSourceConfig>,
    commitment: CommitmentLevel,
    extractor: &E,
    source_updates: &Vec<Vec<Option<Update>>>,
) -> (r: Result<Vec<E::Block>, ConfigError>)
    requires
        source_updates@.len() == grpc_sources@.len(),
    ensures
        r is Ok <==> grpc_sources@.len() >= 1 && commitment.is_supported(),
        r matches Ok(out) ==> out@ == blocks_of(
            run_filter(extractor, round_robin_merge(views_of(source_updates@)), 0).1,
        ),
        r == Err::<Vec<E::Block>, ConfigError>(ConfigError::UnsupportedCommitment)
            <==> !commitment.is_supported(),
        r == Err::<Vec<E::Block>, ConfigError>(ConfigError::NoSources) <==> commitment.is_supported()
            && grpc_sources@.len() == 0,
{
    match validate_config(grpc_sources, commitment) {
        Err(e) => Err(e),
        Ok(()) => {
            let merged = merge_round_robin(source_updates);
            Ok(filter_blocks(extractor, &merged))
        },
    }
}

/// Law: whatever the sources delivered and however they interleaved, the
/// multiplexer's block output is strictly increasing in the slot carried
/// by the blocks themselves.
pub proof fn lemma_multiplex_output_monotone(
    extractor: &ExtractBlock,
    source_updates: Seq<Seq<Option<Update>>>,
)
    ensures
        ({
            let out = blocks_of(run_filter(extractor, round_robin_merge(source_updates), 0).1);
            forall|i: int, j: int|
                0 <= i < j < out.len() ==> (#[trigger] out[i]).slot < (#[trigger] out[j]).slot
        }),
{
    lemma_block_output_strictly_increasing(extractor, round_robin_merge(source_updates), 0);
}

} // verus!
