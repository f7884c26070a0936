//! The operations on an asset itself: transfer, burn and update. Each is
//! decided by the authority resolver and the hook dispatcher, and is applied
//! whole or not at all.

use vstd::prelude::*;
use crate::address::Address;
use crate::asset::{Asset, Collection, Revocation};
use crate::authority::{authorization, authorize, authorize_collection};
use crate::error::{AuthError, CoreError};
use crate::hooks::{hooks_outcome, inherited_records, run_hooks, OracleResponse};
use crate::operations::removal_event;
use crate::plugin::{AuthorityModel, LifecycleEvent, PluginKind};
use crate::registry::{
    cleared, lemma_cleared_are_delegated, retained, AuditEvent, PluginRecord,
};

verus! {

/// Whether the caller may perform `action` on the asset through a plugin:
/// as the authority of the asset's plugin of variant `delegate`, or of the
/// plugin of variant `permanent` on the asset or on its collection. Where
/// none permits it, a cleared binding to the asset's delegate plugin shows
/// as such.
pub open spec fn delegated_permission(
    asset: &Asset,
    collection: Option<&Collection>,
    caller: Address,
    delegate: PluginKind,
    permanent: PluginKind,
    action: LifecycleEvent,
) -> Result<(), AuthError> {
    let own = authorization(
        asset.plugins@,
        asset.revoked@,
        caller,
        Some(asset.owner),
        asset.update_authority_in(collection),
        delegate,
        action,
    );
    let lasting = authorization(
        asset.plugins@,
        asset.revoked@,
        caller,
        Some(asset.owner),
        asset.update_authority_in(collection),
        permanent,
        action,
    );
    let inherited = match collection {
        Some(c) => authorization(
            c.plugins@,
            Seq::<Revocation>::empty(),
            caller,
            None,
            Some(c.update_authority),
            permanent,
            action,
        ),
        None => Err(AuthError::Unauthorized),
    };
    if own is Ok || lasting is Ok || inherited is Ok {
        Ok(())
    } else if own == Err::<(), AuthError>(AuthError::AuthorityRevoked) {
        Err(AuthError::AuthorityRevoked)
    } else {
        Err(AuthError::Unauthorized)
    }
}

/// Whether the caller may transfer the asset: its owner, or one whom a
/// transfer delegate plugin permits.
pub open spec fn transfer_permission(
    asset: &Asset,
    collection: Option<&Collection>,
    caller: Address,
) -> Result<(), AuthError> {
    if asset.owner == caller {
        Ok(())
    } else {
        delegated_permission(
            asset,
            collection,
            caller,
            PluginKind::TransferDelegate,
            PluginKind::PermanentTransferDelegate,
            LifecycleEvent::Transfer,
        )
    }
}

/// Whether the caller may burn the asset: its owner, or one whom a burn
/// delegate plugin permits.
pub open spec fn burn_permission(
    asset: &Asset,
    collection: Option<&Collection>,
    caller: Address,
) -> Result<(), AuthError> {
    if asset.owner == caller {
        Ok(())
    } else {
        delegated_permission(
            asset,
            collection,
            caller,
            PluginKind::BurnDelegate,
            PluginKind::PermanentBurnDelegate,
            LifecycleEvent::Burn,
        )
    }
}

/// Whether the caller may update the asset's name and address: only its
/// update authority.
pub open spec fn update_permission(
    asset: &Asset,
    collection: Option<&Collection>,
    caller: Address,
) -> Result<(), AuthError> {
    if asset.update_authority_in(collection) == Some(caller) {
        Ok(())
    } else {
        Err(AuthError::Unauthorized)
    }
}

/// Why an operation on an asset is refused: the caller lacks the permission,
/// or a plugin consulted on the event rejects.
pub open spec fn refusal(
    permission: Result<(), AuthError>,
    asset: &Asset,
    collection: Option<&Collection>,
    event: LifecycleEvent,
    responses: Seq<OracleResponse>,
) -> Option<CoreError> {
    let hooks = hooks_outcome(asset.plugins@, inherited_records(collection), None, event, responses);
    if permission is Err {
        Some(CoreError::Auth(permission->Err_0))
    } else if hooks is Err {
        Some(CoreError::Hook(hooks->Err_0))
    } else {
        None
    }
}

/// The cleared binding that a cleared record leaves behind.
pub open spec fn revocation_of(record: PluginRecord) -> Revocation {
    Revocation {
        plugin_kind: record.plugin.kind(),
        delegate: match record.authority {
            AuthorityModel::Delegate(delegate) => delegate,
            _ => arbitrary(),
        },
    }
}

/// The cleared bindings of the records that a transfer clears.
pub open spec fn revocations(records: Seq<PluginRecord>) -> Seq<Revocation> {
    cleared(records).map_values(|record: PluginRecord| revocation_of(record))
}

/// What a transfer reports: the removal of each record that it clears.
pub open spec fn clearing_events(target: Address, records: Seq<PluginRecord>) -> Seq<AuditEvent> {
    cleared(records).map_values(|record: PluginRecord| removal_event(target, record))
}

/// Decides through the delegate plugins.
fn permitted_through(
    asset: &Asset,
    collection: Option<&Collection>,
    caller: &Address,
    delegate: PluginKind,
    permanent: PluginKind,
    action: LifecycleEvent,
) -> (result: Result<(), AuthError>)
    requires
        asset.member_of(collection),
    ensures
        result == delegated_permission(asset, collection, *caller, delegate, permanent, action),
{
    let own = authorize(caller, asset, collection, delegate, action);
    if own.is_ok() {
        return Ok(());
    }
    if authorize(caller, asset, collection, permanent, action).is_ok() {
        return Ok(());
    }
    match collection {
        Some(c) => {
            if authorize_collection(caller, c, permanent, action).is_ok() {
                return Ok(());
            }
        },
        None => {},
    }
    match own {
        Err(AuthError::AuthorityRevoked) => Err(AuthError::AuthorityRevoked),
        _ => Err(AuthError::Unauthorized),
    }
}

/// Hands an asset to a new owner. The caller must be the owner or be
/// permitted by a transfer delegate plugin, and every plugin consulted on a
/// transfer must approve. With the transfer every plugin that is bound to a
/// delegate and is not permanent leaves the asset: its binding is kept as
/// cleared, and its removal is reported. On an error the asset stays as it
/// was.
pub fn transfer(
    asset: &mut Asset,
    collection: Option<&Collection>,
    caller: &Address,
    new_owner: Address,
    responses: &Vec<OracleResponse>,
    log: &mut Vec<AuditEvent>,
) -> (result: Result<(), CoreError>)
    requires
        old(asset).member_of(collection),
    ensures
        final(asset).id == old(asset).id,
        final(asset).collection == old(asset).collection,
        final(asset).update_authority == old(asset).update_authority,
        final(asset).name == old(asset).name,
        final(asset).uri == old(asset).uri,
        match refusal(
            transfer_permission(old(asset), collection, *caller),
            old(asset),
            collection,
            LifecycleEvent::Transfer,
            responses@,
        ) {
            Some(e) => {
                &&& result == Err::<(), CoreError>(e)
                &&& final(asset).owner == old(asset).owner
                &&& final(asset).plugins@ == old(asset).plugins@
                &&& final(asset).revoked@ == old(asset).revoked@
                &&& final(log)@ == old(log)@
            },
            None => {
                &&& result is Ok
                &&& final(asset).owner == new_owner
                &&& final(asset).plugins@ == retained(old(asset).plugins@)
                &&& final(asset).revoked@ == old(asset).revoked@ + revocations(old(asset).plugins@)
                &&& final(log)@ == old(log)@ + clearing_events(
                    old(asset).id,
                    old(asset).plugins@,
                )
            },
        },
{
    if asset.owner != *caller {
        match permitted_through(
            asset,
            collection,
            caller,
            PluginKind::TransferDelegate,
            PluginKind::PermanentTransferDelegate,
            LifecycleEvent::Transfer,
        ) {
            Err(e) => {
                return Err(CoreError::Auth(e));
            },
            Ok(_) => {},
        }
    }
    match run_hooks(asset, collection, LifecycleEvent::Transfer, responses) {
        Err(e) => {
            return Err(CoreError::Hook(e));
        },
        Ok(_) => {},
    }
    let ghost start = *asset;
    let ghost before = asset.plugins@;
    let ghost revoked_before = asset.revoked@;
    let ghost log_before = log@;
    let target = asset.id;
    let gone = asset.plugins.clear_delegates();
    let ghost all = gone@;
    let mut i: usize = 0;
    while i < gone.len()
        invariant
            i <= gone@.len(),
            gone@ == all,
            all == cleared(before),
            asset.id == start.id,
            asset.owner == start.owner,
            asset.collection == start.collection,
            asset.update_authority == start.update_authority,
            asset.name == start.name,
            asset.uri == start.uri,
            asset.plugins@ == retained(before),
            asset.revoked@ == revoked_before + all.take(i as int).map_values(
                |record: PluginRecord| revocation_of(record),
            ),
            log@ == log_before + all.take(i as int).map_values(
                |record: PluginRecord| removal_event(target, record),
            ),
        decreases gone@.len() - i,
    {
        proof {
            lemma_cleared_are_delegated(before, i as int);
            assert(all.take(i + 1) =~= all.take(i as int).push(all[i as int]));
        }
        let kind = gone[i].plugin.kind();
        let authority = gone[i].authority;
        match authority {
            AuthorityModel::Delegate(delegate) => {
                asset.revoked.push(Revocation { plugin_kind: kind, delegate });
            },
            _ => {},
        }
        log.push(
            AuditEvent {
                target,
                plugin_kind: kind,
                action: LifecycleEvent::Remove,
                authority_used: authority,
            },
        );
        i += 1;
    }
    proof {
        assert(all.take(all.len() as int) =~= all);
    }
    asset.owner = new_owner;
    Ok(())
}

/// Destroys an asset. The caller must be the owner or be permitted by a burn
/// delegate plugin, and every plugin consulted on a burn must approve. On an
/// error the asset comes back as it was.
pub fn burn(
    asset: Asset,
    collection: Option<&Collection>,
    caller: &Address,
    responses: &Vec<OracleResponse>,
) -> (result: Result<(), (CoreError, Asset)>)
    requires
        asset.member_of(collection),
    ensures
        match refusal(
            burn_permission(&asset, collection, *caller),
            &asset,
            collection,
            LifecycleEvent::Burn,
            responses@,
        ) {
            Some(e) => result == Err::<(), (CoreError, Asset)>((e, asset)),
            None => result is Ok,
        },
{
    if asset.owner != *caller {
        match permitted_through(
            &asset,
            collection,
            caller,
            PluginKind::BurnDelegate,
            PluginKind::PermanentBurnDelegate,
            LifecycleEvent::Burn,
        ) {
            Err(e) => {
                return Err((CoreError::Auth(e), asset));
            },
            Ok(_) => {},
        }
    }
    match run_hooks(&asset, collection, LifecycleEvent::Burn, responses) {
        Err(e) => Err((CoreError::Hook(e), asset)),
        Ok(_) => Ok(()),
    }
}

/// Gives an asset a new name and address. The caller must be its update
/// authority, and every plugin consulted on an update must approve. On an
/// error the asset stays as it was.
pub fn update(
    asset: &mut Asset,
    collection: Option<&Collection>,
    caller: &Address,
    name: String,
    uri: String,
    responses: &Vec<OracleResponse>,
) -> (result: Result<(), CoreError>)
    requires
        old(asset).member_of(collection),
    ensures
        final(asset).id == old(asset).id,
        final(asset).owner == old(asset).owner,
        final(asset).collection == old(asset).collection,
        final(asset).update_authority == old(asset).update_authority,
        final(asset).plugins@ == old(asset).plugins@,
        final(asset).revoked == old(asset).revoked,
        match refusal(
            update_permission(old(asset), collection, *caller),
            old(asset),
            collection,
            LifecycleEvent::Update,
            responses@,
        ) {
            Some(e) => {
                &&& result == Err::<(), CoreError>(e)
                &&& final(asset).name == old(asset).name
                &&& final(asset).uri == old(asset).uri
            },
            None => {
                &&& result is Ok
                &&& final(asset).name == name
                &&& final(asset).uri == uri
            },
        },
{
    let permitted = match asset.effective_update_authority(collection) {
        Some(authority) => authority == *caller,
        None => false,
    };
    if !permitted {
        return Err(CoreError::Auth(AuthError::Unauthorized));
    }
    match run_hooks(asset, collection, LifecycleEvent::Update, responses) {
        Err(e) => {
            return Err(CoreError::Hook(e));
        },
        Ok(_) => {},
    }
    asset.name = name;
    asset.uri = uri;
    Ok(())
}

} // verus!
