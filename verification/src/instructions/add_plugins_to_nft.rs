//! Adding plugins to an asset.

use vstd::prelude::*;
use crate::address::Address;
use crate::instructions::request::{is_metaplex_oracle, metaplex_oracle, AddPluginRequest};
use crate::plugin::{
    Autograph, AutographSignature, Creator, FreezeDelegate, Plugin, Royalties, RuleSet,
};

verus! {

/// The accounts of an instruction that adds a plugin to an asset.
#[derive(Clone, Copy, Debug, PartialEq, Eq)]
pub struct AddPluginsToNft {
    /// The asset that receives the plugin.
    pub asset: Address,
    /// The collection that the asset belongs to, if any.
    pub collection: Option<Address>,
    /// Pays for the storage.
    pub payer: Address,
    /// The owner or delegate of the asset.
    pub authority: Option<Address>,
    /// The program that receives log data.
    pub log_wrapper: Option<Address>,
}

/// A recipient of royalties and its share in percent, as it is handed in.
#[derive(Clone, Copy, Debug, PartialEq, Eq)]
pub struct CreatorArgs {
    pub address: Address,
    pub percentage: u8,
}

/// The royalties to attach: the fee in basis points (100 for one percent),
/// and who receives it.
#[derive(Clone, Debug, PartialEq, Eq)]
pub struct AddRoyaltiesPluginArgs {
    pub basis_points: u16,
    pub creators: Vec<CreatorArgs>,
}

/// The creator that an argument stands for.
pub open spec fn creator_of(args: CreatorArgs) -> Creator {
    Creator { address: args.address, percentage: args.percentage }
}

/// Whether the plugin is the royalties plugin with this fee and these
/// recipients, in their order, and without a rule on programs.
pub open spec fn is_royalties(plugin: Plugin, basis_points: u16, creators: Seq<CreatorArgs>) -> bool {
    &&& plugin matches Plugin::Royalties(royalties)
    &&& royalties.basis_points == basis_points
    &&& royalties.creators@ == creators.map_values(|args: CreatorArgs| creator_of(args))
    &&& royalties.rule_set == RuleSet::Unrestricted
}

/// The royalties plugin for a fee and its recipients.
pub fn royalties_plugin(basis_points: u16, creators: Vec<CreatorArgs>) -> (plugin: Plugin)
    ensures
        is_royalties(plugin, basis_points, creators@),
{
    let mut mapped: Vec<Creator> = Vec::new();
    let mut i: usize = 0;
    while i < creators.len()
        invariant
            i <= creators@.len(),
            mapped@ == creators@.take(i as int).map_values(|args: CreatorArgs| creator_of(args)),
        decreases creators@.len() - i,
    {
        let c = creators[i];
        mapped.push(Creator { address: c.address, percentage: c.percentage });
        i += 1;
    }
    proof {
        assert(creators@.take(creators@.len() as int) =~= creators@);
    }
    Plugin::Royalties(Royalties { basis_points, creators: mapped, rule_set: RuleSet::Unrestricted })
}

impl AddPluginsToNft {
    /// Whether the request is for this instruction's asset. The log program
    /// has no part in adding a plugin.
    pub open spec fn requests(&self, request: AddPluginRequest) -> bool {
        &&& request.asset == self.asset
        &&& request.collection == self.collection
        &&& request.payer == self.payer
        &&& request.authority == self.authority
    }

    fn with_plugin(&self, plugin: Plugin) -> (request: AddPluginRequest)
        ensures
            self.requests(request),
            request.plugin == plugin,
    {
        AddPluginRequest {
            asset: self.asset,
            collection: self.collection,
            payer: self.payer,
            authority: self.authority,
            plugin,
        }
    }

    /// Royalties: a fee on sales, shared among the creators named.
    pub fn add_royalties_plugin(&self, args: AddRoyaltiesPluginArgs) -> (request: AddPluginRequest)
        ensures
            self.requests(request),
            is_royalties(request.plugin, args.basis_points, args.creators@),
    {
        self.with_plugin(royalties_plugin(args.basis_points, args.creators))
    }

    /// An autograph plugin with one signature: a fixed message, signed by
    /// the authority, or by the all-zero address where there is none.
    pub fn add_autograph_plugin_to_asset(&self) -> (request: AddPluginRequest)
        ensures
            self.requests(request),
            request.plugin matches Plugin::Autograph(autograph) && autograph.signatures@.len() == 1
                && autograph.signatures@[0].message@ == "Example messages"@ && match self.authority {
                Some(authority) => autograph.signatures@[0].address == authority,
                None => autograph.signatures@[0].address.is_zero(),
            },
    {
        let address = match self.authority {
            Some(authority) => authority,
            None => Address::default(),
        };
        let signatures = vec![AutographSignature { message: "Example messages".to_owned(), address }];
        self.with_plugin(Plugin::Autograph(Autograph { signatures }))
    }

    /// A transfer delegate: lets a delegate transfer the asset for the
    /// owner. The binding does not outlast a transfer.
    pub fn add_transfer_delegate_plugin_to_asset(&self) -> (request: AddPluginRequest)
        ensures
            self.requests(request),
            request.plugin == Plugin::TransferDelegate,
    {
        self.with_plugin(Plugin::TransferDelegate)
    }

    /// A freeze delegate, frozen: the asset cannot be transferred until it
    /// is set to not frozen.
    pub fn add_freeze_delegate_plugin_to_asset(&self) -> (request: AddPluginRequest)
        ensures
            self.requests(request),
            request.plugin == Plugin::FreezeDelegate(FreezeDelegate { frozen: true }),
    {
        self.with_plugin(Plugin::FreezeDelegate(FreezeDelegate { frozen: true }))
    }

    /// A burn delegate: lets a delegate destroy the asset.
    pub fn add_burn_delegate_plugin_to_asset(&self) -> (request: AddPluginRequest)
        ensures
            self.requests(request),
            request.plugin == Plugin::BurnDelegate,
    {
        self.with_plugin(Plugin::BurnDelegate)
    }

    /// The on-chain oracle, consulted on the asset's transfers.
    pub fn add_metaplex_oracle_to_nft(&self) -> (request: AddPluginRequest)
        ensures
            self.requests(request),
            is_metaplex_oracle(request.plugin),
    {
        self.with_plugin(metaplex_oracle())
    }
}

} // verus!
