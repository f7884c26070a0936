//! Burning an asset.

use vstd::prelude::*;
use crate::address::Address;
use crate::instructions::request::BurnRequest;

verus! {

/// The accounts of an instruction that burns an asset.
#[derive(Clone, Copy, Debug, PartialEq, Eq)]
pub struct BurnNFT {
    pub payer: Address,
    pub asset: Address,
    /// The collection that the asset belongs to, if any.
    pub collection: Option<Address>,
    /// The owner, or the delegate that may burn for it.
    pub authority: Option<Address>,
}

impl BurnNFT {
    /// Asks for the asset to be destroyed.
    pub fn burn_nft(&self) -> (request: BurnRequest)
        ensures
            request == (BurnRequest {
                asset: self.asset,
                collection: self.collection,
                payer: self.payer,
                authority: self.authority,
            }),
    {
        BurnRequest {
            asset: self.asset,
            collection: self.collection,
            payer: self.payer,
            authority: self.authority,
        }
    }
}

} // verus!
