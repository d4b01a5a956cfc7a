//! Extractors: the capability that selects which updates become blocks.

use vstd::prelude::*;
use crate::config::CommitmentLevel;
use crate::update::{BlockMetaUpdate, BlockUpdate, Update};

verus! {

/// Whether a block filter entry is forwarded to the upstream subscribe call.
#[derive(Clone, Copy, Debug, PartialEq, Eq, Structural)]
pub struct BlocksFilter {
    pub active: bool,
}

/// Whether a blockmeta filter entry is forwarded to the upstream subscribe
/// call.
#[derive(Clone, Copy, Debug, PartialEq, Eq, Structural)]
pub struct BlockMetaFilter {
    pub active: bool,
}

/// The capability selecting which updates become blocks of the output
/// stream and reporting their slot.
pub trait ExtractBlockFromStream: Sized {
    type Block;

    /// What `extract` returns on an update, given the highest slot emitted
    /// so far.
    spec fn extract_spec(&self, update: Update, current_slot: u64) -> Option<(u64, Self::Block)>;

    /// An extractor never selects a block whose slot is not strictly
    /// greater than the current slot.
    proof fn extract_advances(&self, update: Update, current_slot: u64)
        ensures
            self.extract_spec(update, current_slot) matches Some(p) ==> p.0 > current_slot,
    ;

    /// Selects the update when it is of the extracted variant and its slot
    /// is strictly greater than `current_slot`; reports the slot of the
    /// selected block.
    fn extract(&self, update: Update, current_slot: u64) -> (r: Option<(u64, Self::Block)>)
        ensures
            r == self.extract_spec(update, current_slot),
    ;

    /// The block filter descriptor forwarded verbatim to the upstream
    /// subscribe call.
    fn get_block_subscription_filter(&self) -> BlocksFilter;

    /// The blockmeta filter descriptor forwarded verbatim to the upstream
    /// subscribe call.
    fn get_blockmeta_subscription_filter(&self) -> BlockMetaFilter;
}

/// Extracts the transactions-bearing block variant.
pub struct ExtractBlock(pub CommitmentLevel);

impl ExtractBlockFromStream for ExtractBlock {
    type Block = BlockUpdate;

    open spec fn extract_spec(&self, update: Update, current_slot: u64) -> Option<(u64, BlockUpdate)> {
        match update {
            Update::Block(b) => if b.slot > current_slot {
                Some((b.slot, b))
            } else {
                None
            },
            _ => None,
        }
    }

    proof fn extract_advances(&self, update: Update, current_slot: u64)
        ensures
            self.extract_spec(update, current_slot) matches Some(p) ==> p.0 > current_slot,
    {
    }

    fn extract(&self, update: Update, current_slot: u64) -> (r: Option<(u64, BlockUpdate)>)
        ensures
            r == self.extract_spec(update, current_slot),
    {
        match update {
            Update::Block(b) => if b.slot > current_slot {
                Some((b.slot, b))
            } else {
                None
            },
            _ => None,
        }
    }

    fn get_block_subscription_filter(&self) -> (f: BlocksFilter)
        ensures
            f.active,
    {
        BlocksFilter { active: true }
    }

    fn get_blockmeta_subscription_filter(&self) -> (f: BlockMetaFilter)
        ensures
            !f.active,
    {
        BlockMetaFilter { active: false }
    }
}

/// Extracts the blockmeta variant, for consumers that only need headers.
pub struct ExtractBlockMeta(pub CommitmentLevel);

impl ExtractBlockFromStream for ExtractBlockMeta {
    type Block = BlockMetaUpdate;

    open spec fn extract_spec(&self, update: Update, current_slot: u64) -> Option<
        (u64, BlockMetaUpdate),
    > {
        match update {
            Update::BlockMeta(m) => if m.slot > current_slot {
                Some((m.slot, m))
            } else {
                None
            },
            _ => None,
        }
    }

    proof fn extract_advances(&self, update: Update, current_slot: u64)
        ensures
            self.extract_spec(update, current_slot) matches Some(p) ==> p.0 > current_slot,
    {
    }

    fn extract(&self, update: Update, current_slot: u64) -> (r: Option<(u64, BlockMetaUpdate)>)
        ensures
            r == self.extract_spec(update, current_slot),
    {
        match update {
            Update::BlockMeta(m) => if m.slot > current_slot {
                Some((m.slot, m))
            } else {
                None
            },
            _ => None,
        }
    }

    fn get_block_subscription_filter(&self) -> (f: BlocksFilter)
        ensures
            !f.active,
    {
        BlocksFilter { active: false }
    }

    fn get_blockmeta_subscription_filter(&self) -> (f: BlockMetaFilter)
        ensures
            f.active,
    {
        BlockMetaFilter { active: true }
    }
}

} // verus!
