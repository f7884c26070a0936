//! Making assets, plain or with a permanent plugin.

use vstd::prelude::*;
use crate::address::Address;
use crate::instructions::request::{authority_managed, CreateAssetRequest};
use crate::plugin::{AuthorityModel, PermanentFreezeDelegate, Plugin, PluginAuthorityPair};

verus! {

/// The accounts of an instruction that makes an asset.
///
/// A standalone asset is made without a collection. An asset of a
/// collection is made without an update authority of its own: it has that
/// of its collection.
#[derive(Clone, Copy, Debug, PartialEq, Eq)]
pub struct CreateNFT {
    pub payer: Address,
    /// The asset to be made.
    pub asset: Address,
    /// The collection that the asset will be part of.
    pub collection: Option<Address>,
    pub update_authority: Option<Address>,
    /// Who authorises the creation.
    pub authority: Option<Address>,
    /// The owner of the new asset; the authority where none is given.
    pub owner: Option<Address>,
}

/// The name and address of a new asset.
#[derive(Clone, Debug, PartialEq, Eq)]
pub struct CreateNFTArgs {
    pub name: String,
    pub uri: String,
}

impl CreateNFT {
    /// Whether the request is for this instruction's asset, under the name
    /// and address given.
    pub open spec fn requests(&self, request: CreateAssetRequest, args: CreateNFTArgs) -> bool {
        &&& request.asset == self.asset
        &&& request.collection == self.collection
        &&& request.authority == self.authority
        &&& request.owner == self.owner
        &&& request.update_authority == self.update_authority
        &&& request.payer == self.payer
        &&& request.name == args.name
        &&& request.uri == args.uri
    }

    fn with_plugins(&self, args: CreateNFTArgs, plugins: Vec<PluginAuthorityPair>) -> (request:
        CreateAssetRequest)
        ensures
            self.requests(request, args),
            request.plugins == plugins,
    {
        CreateAssetRequest {
            asset: self.asset,
            collection: self.collection,
            authority: self.authority,
            owner: self.owner,
            update_authority: self.update_authority,
            payer: self.payer,
            name: args.name,
            uri: args.uri,
            plugins,
        }
    }

    /// An asset without plugins.
    pub fn create_nft(&self, create_nft_args: CreateNFTArgs) -> (request: CreateAssetRequest)
        ensures
            self.requests(request, create_nft_args),
            request.plugins@ == Seq::<PluginAuthorityPair>::empty(),
    {
        self.with_plugins(create_nft_args, Vec::new())
    }

    /// An asset that its update authority may freeze; it starts frozen.
    pub fn create_nft_with_permanent_freeze_delegate(&self, args: CreateNFTArgs) -> (request:
        CreateAssetRequest)
        ensures
            self.requests(request, args),
            request.plugins@ == seq![
                (PluginAuthorityPair {
                    plugin: Plugin::PermanentFreezeDelegate(
                        PermanentFreezeDelegate { frozen: true },
                    ),
                    authority: Some(AuthorityModel::UpdateAuthority),
                }),
            ],
    {
        self.with_plugins(
            args,
            authority_managed(
                Plugin::PermanentFreezeDelegate(PermanentFreezeDelegate { frozen: true }),
            ),
        )
    }

    /// An asset that its update authority may transfer.
    pub fn create_nft_with_permanent_transfer_delegate(&self, args: CreateNFTArgs) -> (request:
        CreateAssetRequest)
        ensures
            self.requests(request, args),
            request.plugins@ == seq![
                (PluginAuthorityPair {
                    plugin: Plugin::PermanentTransferDelegate,
                    authority: Some(AuthorityModel::UpdateAuthority),
                }),
            ],
    {
        self.with_plugins(args, authority_managed(Plugin::PermanentTransferDelegate))
    }

    /// An asset that its update authority may burn.
    pub fn create_nft_with_permanent_burn_delegate(&self, args: CreateNFTArgs) -> (request:
        CreateAssetRequest)
        ensures
            self.requests(request, args),
            request.plugins@ == seq![
                (PluginAuthorityPair {
                    plugin: Plugin::PermanentBurnDelegate,
                    authority: Some(AuthorityModel::UpdateAuthority),
                }),
            ],
    {
        self.with_plugins(args, authority_managed(Plugin::PermanentBurnDelegate))
    }
}

} // verus!
