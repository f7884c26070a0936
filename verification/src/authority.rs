//! The authority resolver: whether a caller may perform an action on a plugin.

use vstd::prelude::*;
use crate::address::Address;
use crate::asset::{Asset, Collection, Revocation};
use crate::error::AuthError;
use crate::plugin::{AuthorityModel, LifecycleEvent, PluginKind};
use crate::registry::{attached, find, PluginRecord, PluginSet};

verus! {

/// Whether a binding lets the caller perform the action. The owner and the
/// update authority are resolved against the target; a delegate may perform
/// only the one action that the plugin's variant grants.
pub open spec fn permits(
    binding: AuthorityModel,
    caller: Address,
    owner: Option<Address>,
    update_authority: Option<Address>,
    kind: PluginKind,
    action: LifecycleEvent,
) -> bool {
    match binding {
        AuthorityModel::NoAuthority => false,
        AuthorityModel::Owner => owner == Some(caller),
        AuthorityModel::UpdateAuthority => update_authority == Some(caller),
        AuthorityModel::Delegate(delegate) => delegate == caller && action
            == kind.delegated_action(),
    }
}

/// The binding that decides: that of the attached plugin, or, for adding one
/// that is not attached, the default of its variant.
pub open spec fn binding_in_force(
    records: Seq<PluginRecord>,
    kind: PluginKind,
    action: LifecycleEvent,
) -> Option<AuthorityModel> {
    match find(records, kind) {
        Some(record) => Some(record.authority),
        None => if action is Add {
            Some(kind.default_binding())
        } else {
            None
        },
    }
}

/// Whether a transfer cleared a binding of this delegate to this variant.
pub open spec fn was_revoked(revoked: Seq<Revocation>, kind: PluginKind, caller: Address) -> bool {
    exists|i: int|
        0 <= i < revoked.len() && (#[trigger] revoked[i]).plugin_kind == kind && revoked[i].delegate
            == caller
}

/// The resolver's decision.
pub open spec fn authorization(
    records: Seq<PluginRecord>,
    revoked: Seq<Revocation>,
    caller: Address,
    owner: Option<Address>,
    update_authority: Option<Address>,
    kind: PluginKind,
    action: LifecycleEvent,
) -> Result<(), AuthError> {
    if binding_in_force(records, kind, action) matches Some(binding) && permits(
        binding,
        caller,
        owner,
        update_authority,
        kind,
        action,
    ) {
        Ok(())
    } else if was_revoked(revoked, kind, caller) {
        Err(AuthError::AuthorityRevoked)
    } else {
        Err(AuthError::Unauthorized)
    }
}

/// Decides on the plugins of one target.
pub fn resolve(
    plugins: &PluginSet,
    revoked: &Vec<Revocation>,
    caller: &Address,
    owner: Option<Address>,
    update_authority: Option<Address>,
    kind: PluginKind,
    action: LifecycleEvent,
) -> (result: Result<(), AuthError>)
    ensures
        result == authorization(
            plugins@,
            revoked@,
            *caller,
            owner,
            update_authority,
            kind,
            action,
        ),
{
    let binding = match plugins.authority_of(kind) {
        Some(authority) => Some(authority),
        None => match action {
            LifecycleEvent::Add => Some(kind.default_authority()),
            _ => None,
        },
    };
    let permitted = match binding {
        Some(AuthorityModel::Owner) => match owner {
            Some(o) => o == *caller,
            None => false,
        },
        Some(AuthorityModel::UpdateAuthority) => match update_authority {
            Some(u) => u == *caller,
            None => false,
        },
        Some(AuthorityModel::Delegate(delegate)) => delegate == *caller && action
            == kind.granted_action(),
        _ => false,
    };
    if permitted {
        return Ok(());
    }
    let mut i: usize = 0;
    while i < revoked.len()
        invariant
            i <= revoked@.len(),
            !(binding_in_force(plugins@, kind, action) matches Some(binding) && permits(
                binding,
                *caller,
                owner,
                update_authority,
                kind,
                action,
            )),
            forall|j: int|
                0 <= j < i ==> !((#[trigger] revoked@[j]).plugin_kind == kind && revoked@[j].delegate
                    == *caller),
        decreases revoked@.len() - i,
    {
        if revoked[i].plugin_kind == kind && revoked[i].delegate == *caller {
            return Err(AuthError::AuthorityRevoked);
        }
        i += 1;
    }
    Err(AuthError::Unauthorized)
}

/// Whether the caller may perform the action on the asset's plugin of this
/// variant. The update authority is the asset's own or, where it has none,
/// its collection's.
pub fn authorize(
    caller: &Address,
    asset: &Asset,
    collection: Option<&Collection>,
    kind: PluginKind,
    action: LifecycleEvent,
) -> (result: Result<(), AuthError>)
    requires
        asset.member_of(collection),
    ensures
        result == authorization(
            asset.plugins@,
            asset.revoked@,
            *caller,
            Some(asset.owner),
            asset.update_authority_in(collection),
            kind,
            action,
        ),
{
    resolve(
        &asset.plugins,
        &asset.revoked,
        caller,
        Some(asset.owner),
        asset.effective_update_authority(collection),
        kind,
        action,
    )
}

/// Whether the caller may perform the action on the collection's plugin of
/// this variant. A collection has no owner and no cleared bindings.
pub fn authorize_collection(
    caller: &Address,
    collection: &Collection,
    kind: PluginKind,
    action: LifecycleEvent,
) -> (result: Result<(), AuthError>)
    ensures
        result == authorization(
            collection.plugins@,
            Seq::<Revocation>::empty(),
            *caller,
            None,
            Some(collection.update_authority),
            kind,
            action,
        ),
{
    let revoked: Vec<Revocation> = Vec::new();
    resolve(
        &collection.plugins,
        &revoked,
        caller,
        None,
        Some(collection.update_authority),
        kind,
        action,
    )
}

} // verus!
