//! The closed set of plugin variants, their payloads and the authority that
//! each may be bound to.

use vstd::prelude::*;
use crate::address::Address;

verus! {

/// An operation on an asset or collection at which plugins are consulted.
#[derive(Clone, Copy, Debug, PartialEq, Eq, Hash, Structural)]
pub enum LifecycleEvent {
    Create,
    Transfer,
    Update,
    Burn,
    Add,
    Remove,
}

/// The tag of a plugin variant.
#[derive(Clone, Copy, Debug, PartialEq, Eq, Hash, Structural)]
pub enum PluginKind {
    Royalties,
    FreezeDelegate,
    BurnDelegate,
    TransferDelegate,
    PermanentFreezeDelegate,
    PermanentTransferDelegate,
    PermanentBurnDelegate,
    Edition,
    MasterEdition,
    Autograph,
    ExternalOracle,
    BubblegumCompressionMarker,
}

/// Who may add, update or remove a plugin instance.
#[derive(Clone, Copy, Debug, Eq, Hash)]
pub enum AuthorityModel {
    /// Nobody may act: the plugin is closed to change.
    NoAuthority,
    Owner,
    UpdateAuthority,
    Delegate(Address),
}

impl PartialEq for AuthorityModel {
    fn eq(&self, other: &AuthorityModel) -> (equal: bool) {
        match (self, other) {
            (AuthorityModel::NoAuthority, AuthorityModel::NoAuthority) => true,
            (AuthorityModel::Owner, AuthorityModel::Owner) => true,
            (AuthorityModel::UpdateAuthority, AuthorityModel::UpdateAuthority) => true,
            (AuthorityModel::Delegate(a), AuthorityModel::Delegate(b)) => *a == *b,
            _ => false,
        }
    }
}

impl vstd::std_specs::cmp::PartialEqSpecImpl for AuthorityModel {
    open spec fn obeys_eq_spec() -> bool {
        true
    }

    open spec fn eq_spec(&self, other: &AuthorityModel) -> bool {
        *self == *other
    }
}

impl PluginKind {
    /// A permanent variant cannot be removed or rebound once attached; the
    /// others are owner-managed or authority-managed.
    pub open spec fn permanent(self) -> bool {
        self is PermanentFreezeDelegate || self is PermanentTransferDelegate
            || self is PermanentBurnDelegate
    }

    #[verifier::when_used_as_spec(permanent)]
    pub fn is_permanent(self) -> (permanent: bool)
        ensures
            permanent == self.permanent(),
    {
        match self {
            PluginKind::PermanentFreezeDelegate => true,
            PluginKind::PermanentTransferDelegate => true,
            PluginKind::PermanentBurnDelegate => true,
            _ => false,
        }
    }

    /// Variants that the owner manages: the owner adds them and is their
    /// authority unless another is bound.
    pub open spec fn owner_managed(self) -> bool {
        self is FreezeDelegate || self is TransferDelegate || self is BurnDelegate
            || self is Autograph
    }

    /// The authority a plugin of this variant is bound to when none is given.
    pub open spec fn default_binding(self) -> AuthorityModel {
        if self.owner_managed() {
            AuthorityModel::Owner
        } else {
            AuthorityModel::UpdateAuthority
        }
    }

    #[verifier::when_used_as_spec(default_binding)]
    pub fn default_authority(self) -> (authority: AuthorityModel)
        ensures
            authority == self.default_binding(),
    {
        match self {
            PluginKind::FreezeDelegate => AuthorityModel::Owner,
            PluginKind::TransferDelegate => AuthorityModel::Owner,
            PluginKind::BurnDelegate => AuthorityModel::Owner,
            PluginKind::Autograph => AuthorityModel::Owner,
            _ => AuthorityModel::UpdateAuthority,
        }
    }

    /// The one action that a delegate bound to a plugin of this variant may
    /// perform.
    pub open spec fn delegated_action(self) -> LifecycleEvent {
        match self {
            PluginKind::TransferDelegate => LifecycleEvent::Transfer,
            PluginKind::PermanentTransferDelegate => LifecycleEvent::Transfer,
            PluginKind::BurnDelegate => LifecycleEvent::Burn,
            PluginKind::PermanentBurnDelegate => LifecycleEvent::Burn,
            _ => LifecycleEvent::Update,
        }
    }

    #[verifier::when_used_as_spec(delegated_action)]
    pub fn granted_action(self) -> (action: LifecycleEvent)
        ensures
            action == self.delegated_action(),
    {
        match self {
            PluginKind::TransferDelegate => LifecycleEvent::Transfer,
            PluginKind::PermanentTransferDelegate => LifecycleEvent::Transfer,
            PluginKind::BurnDelegate => LifecycleEvent::Burn,
            PluginKind::PermanentBurnDelegate => LifecycleEvent::Burn,
            _ => LifecycleEvent::Update,
        }
    }
}

/// A recipient of royalties and its share in percent.
#[derive(Clone, Copy, Debug, PartialEq, Eq)]
pub struct Creator {
    pub address: Address,
    pub percentage: u8,
}

/// Which programs may move an asset that pays royalties.
#[derive(Clone, Debug, PartialEq, Eq)]
pub enum RuleSet {
    /// No program is named.
    Unrestricted,
    ProgramAllowList(Vec<Address>),
    ProgramDenyList(Vec<Address>),
}

#[derive(Clone, Debug, PartialEq, Eq)]
pub struct Royalties {
    pub basis_points: u16,
    pub creators: Vec<Creator>,
    pub rule_set: RuleSet,
}

#[derive(Clone, Copy, Debug, PartialEq, Eq)]
pub struct FreezeDelegate {
    pub frozen: bool,
}

#[derive(Clone, Copy, Debug, PartialEq, Eq)]
pub struct PermanentFreezeDelegate {
    pub frozen: bool,
}

/// The number of an asset among the editions of its collection.
#[derive(Clone, Copy, Debug, PartialEq, Eq)]
pub struct Edition {
    pub number: u64,
}

/// Marks a collection as the master of numbered editions.
#[derive(Clone, Debug, PartialEq, Eq)]
pub struct MasterEdition {
    pub max_supply: Option<u32>,
    pub name: Option<String>,
    pub uri: Option<String>,
}

#[derive(Clone, Debug, PartialEq, Eq)]
pub struct AutographSignature {
    pub address: Address,
    pub message: String,
}

#[derive(Clone, Debug, PartialEq, Eq)]
pub struct Autograph {
    pub signatures: Vec<AutographSignature>,
}

/// One event on which an external plugin is consulted, with the flags that
/// its result byte is masked against.
#[derive(Clone, Copy, Debug, PartialEq, Eq, Structural)]
pub struct LifecycleCheck {
    pub event: LifecycleEvent,
    pub flags: u32,
}

/// Where the result byte lies in an external response.
#[derive(Clone, Copy, Debug, PartialEq, Eq, Structural)]
pub enum ResultsOffset {
    NoOffset,
    Anchor,
    Custom(u64),
}

impl ResultsOffset {
    /// The offset in bytes: none, the 8 bytes of an account discriminator, or
    /// the number given.
    pub open spec fn position(self) -> u64 {
        match self {
            ResultsOffset::NoOffset => 0,
            ResultsOffset::Anchor => 8,
            ResultsOffset::Custom(n) => n,
        }
    }

    #[verifier::when_used_as_spec(position)]
    pub fn byte_offset(self) -> (offset: u64)
        ensures
            offset == self.position(),
    {
        match self {
            ResultsOffset::NoOffset => 0,
            ResultsOffset::Anchor => 8,
            ResultsOffset::Custom(n) => n,
        }
    }
}

/// A validator outside the registry, consulted on the events it declares.
#[derive(Clone, Debug, PartialEq, Eq)]
pub struct ExternalOracle {
    pub base_address: Address,
    pub lifecycle_checks: Vec<LifecycleCheck>,
    pub results_offset: ResultsOffset,
}

/// A plugin: one variant of the closed set, with its payload.
#[derive(Clone, Debug, PartialEq, Eq)]
pub enum Plugin {
    Royalties(Royalties),
    FreezeDelegate(FreezeDelegate),
    BurnDelegate,
    TransferDelegate,
    PermanentFreezeDelegate(PermanentFreezeDelegate),
    PermanentTransferDelegate,
    PermanentBurnDelegate,
    Edition(Edition),
    MasterEdition(MasterEdition),
    Autograph(Autograph),
    ExternalOracle(ExternalOracle),
    BubblegumCompressionMarker,
}

impl Plugin {
    /// The variant's tag.
    pub open spec fn tag(&self) -> PluginKind {
        match self {
            Plugin::Royalties(_) => PluginKind::Royalties,
            Plugin::FreezeDelegate(_) => PluginKind::FreezeDelegate,
            Plugin::BurnDelegate => PluginKind::BurnDelegate,
            Plugin::TransferDelegate => PluginKind::TransferDelegate,
            Plugin::PermanentFreezeDelegate(_) => PluginKind::PermanentFreezeDelegate,
            Plugin::PermanentTransferDelegate => PluginKind::PermanentTransferDelegate,
            Plugin::PermanentBurnDelegate => PluginKind::PermanentBurnDelegate,
            Plugin::Edition(_) => PluginKind::Edition,
            Plugin::MasterEdition(_) => PluginKind::MasterEdition,
            Plugin::Autograph(_) => PluginKind::Autograph,
            Plugin::ExternalOracle(_) => PluginKind::ExternalOracle,
            Plugin::BubblegumCompressionMarker => PluginKind::BubblegumCompressionMarker,
        }
    }

    #[verifier::when_used_as_spec(tag)]
    pub fn kind(&self) -> (kind: PluginKind)
        ensures
            kind == self.tag(),
    {
        match self {
            Plugin::Royalties(_) => PluginKind::Royalties,
            Plugin::FreezeDelegate(_) => PluginKind::FreezeDelegate,
            Plugin::BurnDelegate => PluginKind::BurnDelegate,
            Plugin::TransferDelegate => PluginKind::TransferDelegate,
            Plugin::PermanentFreezeDelegate(_) => PluginKind::PermanentFreezeDelegate,
            Plugin::PermanentTransferDelegate => PluginKind::PermanentTransferDelegate,
            Plugin::PermanentBurnDelegate => PluginKind::PermanentBurnDelegate,
            Plugin::Edition(_) => PluginKind::Edition,
            Plugin::MasterEdition(_) => PluginKind::MasterEdition,
            Plugin::Autograph(_) => PluginKind::Autograph,
            Plugin::ExternalOracle(_) => PluginKind::ExternalOracle,
            Plugin::BubblegumCompressionMarker => PluginKind::BubblegumCompressionMarker,
        }
    }
}

/// A plugin with the authority to bind it to, if one is given.
#[derive(Clone, Debug, PartialEq, Eq)]
pub struct PluginAuthorityPair {
    pub plugin: Plugin,
    pub authority: Option<AuthorityModel>,
}

} // verus!
