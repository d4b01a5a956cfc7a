//! The modelled upstream subscription messages.
//!
//! An upstream subscription delivers opaque messages; the multiplexer reads
//! only the variant and the slot, so those are held here as plain values.

use vstd::prelude::*;

verus! {

/// A block update: the slot it was produced at and its transactions.
///
/// The payload field stands for the transaction contents, which the
/// multiplexer forwards without inspecting.
#[derive(Clone, Copy, Debug, PartialEq, Eq, Structural)]
pub struct BlockUpdate {
    /// Monotonically assigned block height. `0` is the sentinel for "no
    /// slot yet" and is strictly less than any real slot.
    pub slot: u64,
    /// Stands for the transactions carried by the block.
    pub payload: u64,
}

/// The header portion of a block, without transactions.
#[derive(Clone, Copy, Debug, PartialEq, Eq, Structural)]
pub struct BlockMetaUpdate {
    /// Monotonically assigned block height.
    pub slot: u64,
}

/// One message from an upstream subscription, consumed once and discarded.
#[derive(Clone, Copy, Debug, PartialEq, Eq, Structural)]
pub enum Update {
    /// A transactions-bearing block.
    Block(BlockUpdate),
    /// A block header without transactions.
    BlockMeta(BlockMetaUpdate),
    /// Any other message of the subscription protocol.
    Other,
}

} // verus!
