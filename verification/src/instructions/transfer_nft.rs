//! Transferring an asset.

use vstd::prelude::*;
use crate::address::Address;
use crate::instructions::request::TransferRequest;

verus! {

/// The accounts of an instruction that transfers an asset.
#[derive(Clone, Copy, Debug, PartialEq, Eq)]
pub struct TransferNFT {
    pub payer: Address,
    pub asset: Address,
    /// The collection that the asset belongs to, if any.
    pub collection: Option<Address>,
    /// The owner, or the delegate that may transfer for it.
    pub authority: Option<Address>,
    pub new_owner: Address,
    /// The program that receives log data.
    pub log_wrapper: Option<Address>,
}

impl TransferNFT {
    /// Asks for the asset to be handed to the new owner.
    pub fn handler(&self) -> (request: TransferRequest)
        ensures
            request == (TransferRequest {
                asset: self.asset,
                collection: self.collection,
                payer: self.payer,
                new_owner: self.new_owner,
                authority: self.authority,
                log_wrapper: self.log_wrapper,
            }),
    {
        TransferRequest {
            asset: self.asset,
            collection: self.collection,
            payer: self.payer,
            new_owner: self.new_owner,
            authority: self.authority,
            log_wrapper: self.log_wrapper,
        }
    }
}

} // verus!
