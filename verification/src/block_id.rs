//! Block identifiers.

use crate::felt::Felt;
use vstd::prelude::*;

verus! {

/// Selects one snapshot of the ledger.
#[derive(Clone, Copy, Debug, PartialEq, Eq)]
pub enum BlockId {
    /// The newest accepted block.
    Latest,
    /// The block under construction.
    Pending,
    /// The block with this hash.
    ByHash(Felt),
    /// The block at this height.
    ByNumber(u64),
}

impl BlockId {
    /// Whether the identifier names a block by its hash or its number rather
    /// than by its position at the head of the chain.
    pub open spec fn is_historical(self) -> bool {
        self is ByHash || self is ByNumber
    }

    /// Whether the identifier names a block by its hash or its number.
    pub fn names_historical_block(&self) -> (r: bool)
        ensures
            r == self.is_historical(),
    {
        match self {
            BlockId::Latest => false,
            BlockId::Pending => false,
            BlockId::ByHash(_) => true,
            BlockId::ByNumber(_) => true,
        }
    }
}

} // verus!
