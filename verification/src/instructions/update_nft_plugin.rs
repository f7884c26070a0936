//! Updating the plugins of an asset. A plugin is updated whole: what is kept
//! of its payload is sent again with what is new.

use vstd::prelude::*;
use crate::address::Address;
use crate::instructions::add_plugins_to_nft::{is_royalties, royalties_plugin, CreatorArgs};
use crate::instructions::request::UpdatePluginRequest;
use crate::plugin::{Autograph, AutographSignature, FreezeDelegate, Plugin};

verus! {

/// The accounts of an instruction that updates a plugin of an asset.
#[derive(Clone, Copy, Debug, PartialEq, Eq)]
pub struct UpdateNFTPlugin {
    pub asset: Address,
    /// The collection that the asset belongs to, if any.
    pub collection: Option<Address>,
    /// Pays for the storage.
    pub payer: Address,
    /// The owner or delegate of the asset.
    pub authority: Option<Address>,
    /// The program that receives log data.
    pub log_wrapper: Option<Address>,
}

/// The royalties to put in the place of those attached.
#[derive(Clone, Debug, PartialEq, Eq)]
pub struct UpdateRoyaltiesPluginArgs {
    pub basis_points: u16,
    pub creators: Vec<CreatorArgs>,
}

/// The message of a new autograph.
#[derive(Clone, Debug, PartialEq, Eq)]
pub struct UpdateAutographPluginArgs {
    pub message: String,
}

impl UpdateNFTPlugin {
    /// Whether the request is for this instruction's asset.
    pub open spec fn requests(&self, request: UpdatePluginRequest) -> bool {
        &&& request.asset == self.asset
        &&& request.collection == self.collection
        &&& request.payer == self.payer
        &&& request.authority == self.authority
        &&& request.log_wrapper == self.log_wrapper
    }

    fn with_plugin(&self, plugin: Plugin) -> (request: UpdatePluginRequest)
        ensures
            self.requests(request),
            request.plugin == plugin,
    {
        UpdatePluginRequest {
            asset: self.asset,
            collection: self.collection,
            payer: self.payer,
            authority: self.authority,
            log_wrapper: self.log_wrapper,
            plugin,
        }
    }

    /// New royalties in the place of the old.
    pub fn update_royalties_plugin(&self, args: UpdateRoyaltiesPluginArgs) -> (request:
        UpdatePluginRequest)
        ensures
            self.requests(request),
            is_royalties(request.plugin, args.basis_points, args.creators@),
    {
        self.with_plugin(royalties_plugin(args.basis_points, args.creators))
    }

    /// Toggles the freeze delegate: `current` is the plugin as it is
    /// attached, and the request holds its opposite.
    pub fn update_freeze_delegate(&self, current: FreezeDelegate) -> (request: UpdatePluginRequest)
        ensures
            self.requests(request),
            request.plugin == Plugin::FreezeDelegate(FreezeDelegate { frozen: !current.frozen }),
    {
        self.with_plugin(Plugin::FreezeDelegate(FreezeDelegate { frozen: !current.frozen }))
    }

    /// Adds an autograph of the payer: `existing` is the plugin as it is
    /// attached, and the request holds its signatures followed by the new
    /// one.
    pub fn add_new_autograph_to_asset_with_existing_autograph_plugin(
        &self,
        existing: Autograph,
        args: UpdateAutographPluginArgs,
    ) -> (request: UpdatePluginRequest)
        ensures
            self.requests(request),
            request.plugin matches Plugin::Autograph(autograph) && autograph.signatures@
                == existing.signatures@.push(
                AutographSignature { address: self.payer, message: args.message },
            ),
    {
        let mut existing_autograph_plugin = existing;
        existing_autograph_plugin.signatures.push(
            AutographSignature { address: self.payer, message: args.message },
        );
        self.with_plugin(Plugin::Autograph(existing_autograph_plugin))
    }
}

} // verus!
