//! Chain-position identifiers.

use vstd::prelude::*;

verus! {

/// Identifies a point in the chain: a monotonically increasing block number
/// paired with the block's content hash. Immutable value type, compared and
/// hashed by both fields.
#[derive(Clone, Copy, Debug, PartialEq, Eq, Hash)]
pub struct BlockNumHash {
    /// The block's sequence number.
    pub number: u64,
    /// The block's content hash.
    pub hash: [u8; 32],
}

/// The head an extension asks the notification stream to resume from: the
/// redelivery cursor used when an extension restarts and wants replay to
/// begin at the block it last processed.
#[derive(Clone, Copy, Debug, PartialEq, Eq, Hash)]
pub struct ExExHead {
    /// The block the extension wants notifications to start at.
    pub block: BlockNumHash,
}

} // verus!
