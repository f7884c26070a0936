//! Renaming an asset.

use vstd::prelude::*;
use crate::address::Address;
use crate::instructions::request::UpdateRequest;

verus! {

/// The accounts of an instruction that updates an asset's name and address.
#[derive(Clone, Copy, Debug, PartialEq, Eq)]
pub struct UpdateNFTMetadata {
    /// Pays for the update.
    pub payer: Address,
    pub asset: Address,
    /// The collection that the asset belongs to, if any.
    pub collection: Option<Address>,
    /// The authority that may update the asset.
    pub update_authority: Option<Address>,
}

/// The new name and address.
#[derive(Clone, Debug, PartialEq, Eq)]
pub struct UpdateNFTMetadataArgs {
    pub name: String,
    pub uri: String,
}

impl UpdateNFTMetadata {
    /// Asks for the asset's new name and address, on the update authority's
    /// word.
    pub fn handler(&self, args: UpdateNFTMetadataArgs) -> (request: UpdateRequest)
        ensures
            request.asset == self.asset,
            request.collection == self.collection,
            request.payer == self.payer,
            request.authority == self.update_authority,
            request.new_name == args.name,
            request.new_uri == args.uri,
    {
        UpdateRequest {
            asset: self.asset,
            collection: self.collection,
            payer: self.payer,
            authority: self.update_authority,
            new_name: args.name,
            new_uri: args.uri,
        }
    }
}

} // verus!
