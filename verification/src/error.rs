//! Why an operation was refused. Every error ends the operation that met it,
//! and nothing of that operation is kept.

use vstd::prelude::*;
use crate::address::Address;
use crate::plugin::LifecycleEvent;

verus! {

#[derive(Clone, Copy, Debug, PartialEq, Eq, Hash, Structural)]
pub enum AuthError {
    /// The caller is not the authority that the plugin is bound to.
    Unauthorized,
    /// The caller was a delegate whose binding an earlier transfer cleared.
    AuthorityRevoked,
    /// A permanent plugin was to be bound to another than the update authority.
    IncompatibleAuthority,
}

#[derive(Clone, Copy, Debug, PartialEq, Eq, Hash, Structural)]
pub enum PluginError {
    PermanentPluginNotRemovable,
    DuplicatePlugin,
    PluginNotFound,
}

#[derive(Clone, Copy, Debug, PartialEq, Eq, Hash)]
pub enum HookError {
    /// A freeze plugin holds the asset.
    AssetFrozen,
    /// The external plugin at this base address rejected the event.
    ExternalCheckRejected { plugin: Address, event: LifecycleEvent },
    /// No usable response: none was there, or it ends before the result byte.
    ExternalCheckMalformed,
}

#[derive(Clone, Copy, Debug, PartialEq, Eq, Hash, Structural)]
pub enum SequencerError {
    CollectionNotMasterEdition,
    EditionCapExceeded,
    /// Another operation holds the counter; nothing was changed, and the
    /// caller may try again.
    Conflict,
}

/// The error of an operation that passes through several components.
#[derive(Clone, Copy, Debug, PartialEq, Eq, Hash)]
pub enum CoreError {
    Auth(AuthError),
    Plugin(PluginError),
    Hook(HookError),
    Sequencer(SequencerError),
}

} // verus!
