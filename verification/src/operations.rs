//! The operations on plugins that pass through the authority resolver: adding,
//! updating and removing a plugin of an asset or of a collection.

use vstd::prelude::*;
use crate::address::Address;
use crate::asset::{Asset, Collection, Revocation};
use crate::authority::{authorization, resolve};
use crate::error::{AuthError, CoreError, PluginError};
use crate::hooks::{hooks_outcome, inherited_records, run_on, OracleResponse};
use crate::plugin::{AuthorityModel, LifecycleEvent, Plugin, PluginKind};
use crate::registry::{
    attached, binding_allowed, registered, registration_event, slot, AuditEvent, PluginRecord,
    PluginSet,
};

verus! {

/// Why a plugin is not added: one of its variant is attached, the caller is
/// not the authority for adding it, or its variant does not allow the binding.
pub open spec fn addition_refusal(
    records: Seq<PluginRecord>,
    revoked: Seq<Revocation>,
    caller: Address,
    owner: Option<Address>,
    update_authority: Option<Address>,
    kind: PluginKind,
    binding: Option<AuthorityModel>,
) -> Option<CoreError> {
    if attached(records, kind) {
        Some(CoreError::Plugin(PluginError::DuplicatePlugin))
    } else if authorization(
        records,
        revoked,
        caller,
        owner,
        update_authority,
        kind,
        LifecycleEvent::Add,
    ) is Err {
        Some(CoreError::Auth(authorization(
            records,
            revoked,
            caller,
            owner,
            update_authority,
            kind,
            LifecycleEvent::Add,
        )->Err_0))
    } else if !binding_allowed(kind, binding) {
        Some(CoreError::Auth(AuthError::IncompatibleAuthority))
    } else {
        None
    }
}

/// Why a plugin is not updated: none of its variant is attached, the caller
/// is not its authority, another plugin rejects the update, or its variant
/// does not allow the new binding.
pub open spec fn update_refusal(
    records: Seq<PluginRecord>,
    inherited: Seq<PluginRecord>,
    revoked: Seq<Revocation>,
    caller: Address,
    owner: Option<Address>,
    update_authority: Option<Address>,
    kind: PluginKind,
    binding: Option<AuthorityModel>,
    responses: Seq<OracleResponse>,
) -> Option<CoreError> {
    if !attached(records, kind) {
        Some(CoreError::Plugin(PluginError::PluginNotFound))
    } else if authorization(
        records,
        revoked,
        caller,
        owner,
        update_authority,
        kind,
        LifecycleEvent::Update,
    ) is Err {
        Some(CoreError::Auth(authorization(
            records,
            revoked,
            caller,
            owner,
            update_authority,
            kind,
            LifecycleEvent::Update,
        )->Err_0))
    } else if hooks_outcome(records, inherited, Some(kind), LifecycleEvent::Update, responses) is Err {
        Some(
            CoreError::Hook(
                hooks_outcome(
                    records,
                    inherited,
                    Some(kind),
                    LifecycleEvent::Update,
                    responses,
                )->Err_0,
            ),
        )
    } else if !binding_allowed(kind, binding) {
        Some(CoreError::Auth(AuthError::IncompatibleAuthority))
    } else {
        None
    }
}

/// Why a plugin is not removed: its variant is permanent, none of its
/// variant is attached, or the caller is not its authority.
pub open spec fn removal_refusal(
    records: Seq<PluginRecord>,
    revoked: Seq<Revocation>,
    caller: Address,
    owner: Option<Address>,
    update_authority: Option<Address>,
    kind: PluginKind,
) -> Option<CoreError> {
    if kind.permanent() {
        Some(CoreError::Plugin(PluginError::PermanentPluginNotRemovable))
    } else if !attached(records, kind) {
        Some(CoreError::Plugin(PluginError::PluginNotFound))
    } else if authorization(
        records,
        revoked,
        caller,
        owner,
        update_authority,
        kind,
        LifecycleEvent::Remove,
    ) is Err {
        Some(CoreError::Auth(authorization(
            records,
            revoked,
            caller,
            owner,
            update_authority,
            kind,
            LifecycleEvent::Remove,
        )->Err_0))
    } else {
        None
    }
}

/// What the removal of a record reports.
pub open spec fn removal_event(target: Address, record: PluginRecord) -> AuditEvent {
    AuditEvent {
        target,
        plugin_kind: record.plugin.kind(),
        action: LifecycleEvent::Remove,
        authority_used: record.authority,
    }
}

/// Adds a plugin to the plugins of one target.
fn add_to(
    plugins: &mut PluginSet,
    target: Address,
    revoked: &Vec<Revocation>,
    owner: Option<Address>,
    update_authority: Option<Address>,
    caller: &Address,
    plugin: Plugin,
    binding: Option<AuthorityModel>,
    log: &mut Vec<AuditEvent>,
) -> (result: Result<(), CoreError>)
    ensures
        match addition_refusal(
            old(plugins)@,
            revoked@,
            *caller,
            owner,
            update_authority,
            plugin.kind(),
            binding,
        ) {
            Some(e) => {
                &&& result == Err::<(), CoreError>(e)
                &&& final(plugins)@ == old(plugins)@
                &&& final(log)@ == old(log)@
            },
            None => {
                &&& result is Ok
                &&& final(plugins)@ == registered(old(plugins)@, plugin, binding, false)
                &&& final(log)@ == old(log)@.push(
                    registration_event(old(plugins)@, target, plugin.kind(), binding, false),
                )
            },
        },
{
    let kind = plugin.kind();
    if plugins.contains(kind) {
        return Err(CoreError::Plugin(PluginError::DuplicatePlugin));
    }
    match resolve(plugins, revoked, caller, owner, update_authority, kind, LifecycleEvent::Add) {
        Err(e) => {
            return Err(CoreError::Auth(e));
        },
        Ok(_) => {},
    }
    match plugins.register_or_replace(target, plugin, binding, false, log) {
        Ok(_) => Ok(()),
        Err(e) => Err(CoreError::Auth(e)),
    }
}

/// Replaces the payload of a plugin among the plugins of one target.
fn update_in(
    plugins: &mut PluginSet,
    target: Address,
    inherited: &Vec<PluginRecord>,
    revoked: &Vec<Revocation>,
    owner: Option<Address>,
    update_authority: Option<Address>,
    caller: &Address,
    plugin: Plugin,
    binding: Option<AuthorityModel>,
    responses: &Vec<OracleResponse>,
    log: &mut Vec<AuditEvent>,
) -> (result: Result<(), CoreError>)
    ensures
        match update_refusal(
            old(plugins)@,
            inherited@,
            revoked@,
            *caller,
            owner,
            update_authority,
            plugin.kind(),
            binding,
            responses@,
        ) {
            Some(e) => {
                &&& result == Err::<(), CoreError>(e)
                &&& final(plugins)@ == old(plugins)@
                &&& final(log)@ == old(log)@
            },
            None => {
                &&& result is Ok
                &&& final(plugins)@ == registered(old(plugins)@, plugin, binding, true)
                &&& final(log)@ == old(log)@.push(
                    registration_event(old(plugins)@, target, plugin.kind(), binding, true),
                )
            },
        },
{
    let kind = plugin.kind();
    if !plugins.contains(kind) {
        return Err(CoreError::Plugin(PluginError::PluginNotFound));
    }
    match resolve(plugins, revoked, caller, owner, update_authority, kind, LifecycleEvent::Update) {
        Err(e) => {
            return Err(CoreError::Auth(e));
        },
        Ok(_) => {},
    }
    match run_on(plugins.records(), Some(kind), LifecycleEvent::Update, responses) {
        Err(e) => {
            return Err(CoreError::Hook(e));
        },
        Ok(_) => {},
    }
    match run_on(inherited, None, LifecycleEvent::Update, responses) {
        Err(e) => {
            return Err(CoreError::Hook(e));
        },
        Ok(_) => {},
    }
    match plugins.register_or_replace(target, plugin, binding, true, log) {
        Ok(_) => Ok(()),
        Err(e) => Err(CoreError::Auth(e)),
    }
}

/// Removes a plugin from the plugins of one target.
fn remove_from(
    plugins: &mut PluginSet,
    target: Address,
    revoked: &Vec<Revocation>,
    owner: Option<Address>,
    update_authority: Option<Address>,
    caller: &Address,
    kind: PluginKind,
    log: &mut Vec<AuditEvent>,
) -> (result: Result<Plugin, CoreError>)
    ensures
        match removal_refusal(old(plugins)@, revoked@, *caller, owner, update_authority, kind) {
            Some(e) => {
                &&& result == Err::<Plugin, CoreError>(e)
                &&& final(plugins)@ == old(plugins)@
                &&& final(log)@ == old(log)@
            },
            None => {
                &&& result == Ok::<Plugin, CoreError>(
                    old(plugins)@[slot(old(plugins)@, kind)].plugin,
                )
                &&& final(plugins)@ == old(plugins)@.remove(slot(old(plugins)@, kind))
                &&& final(log)@ == old(log)@.push(
                    removal_event(target, old(plugins)@[slot(old(plugins)@, kind)]),
                )
            },
        },
{
    if kind.is_permanent() {
        return Err(CoreError::Plugin(PluginError::PermanentPluginNotRemovable));
    }
    if !plugins.contains(kind) {
        return Err(CoreError::Plugin(PluginError::PluginNotFound));
    }
    match resolve(plugins, revoked, caller, owner, update_authority, kind, LifecycleEvent::Remove) {
        Err(e) => {
            return Err(CoreError::Auth(e));
        },
        Ok(_) => {},
    }
    match plugins.remove(target, kind, log) {
        Ok(plugin) => Ok(plugin),
        Err(e) => Err(CoreError::Plugin(e)),
    }
}

/// Adds a plugin to an asset, bound as asked or by its variant's default,
/// and reports it. The caller must be the authority for adding it: the owner
/// for an owner-managed variant, else the update authority.
pub fn add_plugin(
    asset: &mut Asset,
    collection: Option<&Collection>,
    caller: &Address,
    plugin: Plugin,
    binding: Option<AuthorityModel>,
    log: &mut Vec<AuditEvent>,
) -> (result: Result<(), CoreError>)
    requires
        old(asset).member_of(collection),
    ensures
        final(asset).same_but_plugins(old(asset)),
        match addition_refusal(
            old(asset).plugins@,
            old(asset).revoked@,
            *caller,
            Some(old(asset).owner),
            old(asset).update_authority_in(collection),
            plugin.kind(),
            binding,
        ) {
            Some(e) => {
                &&& result == Err::<(), CoreError>(e)
                &&& final(asset).plugins@ == old(asset).plugins@
                &&& final(log)@ == old(log)@
            },
            None => {
                &&& result is Ok
                &&& final(asset).plugins@ == registered(old(asset).plugins@, plugin, binding, false)
                &&& final(log)@ == old(log)@.push(
                    registration_event(
                        old(asset).plugins@,
                        old(asset).id,
                        plugin.kind(),
                        binding,
                        false,
                    ),
                )
            },
        },
{
    let update_authority = asset.effective_update_authority(collection);
    add_to(
        &mut asset.plugins,
        asset.id,
        &asset.revoked,
        Some(asset.owner),
        update_authority,
        caller,
        plugin,
        binding,
        log,
    )
}

/// Adds a plugin to a collection. The caller must be the collection's
/// update authority, and the variant one that it manages.
pub fn add_collection_plugin(
    collection: &mut Collection,
    caller: &Address,
    plugin: Plugin,
    binding: Option<AuthorityModel>,
    log: &mut Vec<AuditEvent>,
) -> (result: Result<(), CoreError>)
    ensures
        final(collection).same_but_plugins(old(collection)),
        match addition_refusal(
            old(collection).plugins@,
            Seq::<Revocation>::empty(),
            *caller,
            None,
            Some(old(collection).update_authority),
            plugin.kind(),
            binding,
        ) {
            Some(e) => {
                &&& result == Err::<(), CoreError>(e)
                &&& final(collection).plugins@ == old(collection).plugins@
                &&& final(log)@ == old(log)@
            },
            None => {
                &&& result is Ok
                &&& final(collection).plugins@ == registered(
                    old(collection).plugins@,
                    plugin,
                    binding,
                    false,
                )
                &&& final(log)@ == old(log)@.push(
                    registration_event(
                        old(collection).plugins@,
                        old(collection).id,
                        plugin.kind(),
                        binding,
                        false,
                    ),
                )
            },
        },
{
    let revoked: Vec<Revocation> = Vec::new();
    add_to(
        &mut collection.plugins,
        collection.id,
        &revoked,
        None,
        Some(collection.update_authority),
        caller,
        plugin,
        binding,
        log,
    )
}

/// Replaces the payload of an asset's plugin by the one given, whole, and
/// reports it. The caller must be the plugin's authority, and every other
/// plugin consulted on an update must approve. The binding stays unless a
/// new one is given.
pub fn update_plugin(
    asset: &mut Asset,
    collection: Option<&Collection>,
    caller: &Address,
    plugin: Plugin,
    binding: Option<AuthorityModel>,
    responses: &Vec<OracleResponse>,
    log: &mut Vec<AuditEvent>,
) -> (result: Result<(), CoreError>)
    requires
        old(asset).member_of(collection),
    ensures
        final(asset).same_but_plugins(old(asset)),
        match update_refusal(
            old(asset).plugins@,
            inherited_records(collection),
            old(asset).revoked@,
            *caller,
            Some(old(asset).owner),
            old(asset).update_authority_in(collection),
            plugin.kind(),
            binding,
            responses@,
        ) {
            Some(e) => {
                &&& result == Err::<(), CoreError>(e)
                &&& final(asset).plugins@ == old(asset).plugins@
                &&& final(log)@ == old(log)@
            },
            None => {
                &&& result is Ok
                &&& final(asset).plugins@ == registered(old(asset).plugins@, plugin, binding, true)
                &&& final(log)@ == old(log)@.push(
                    registration_event(
                        old(asset).plugins@,
                        old(asset).id,
                        plugin.kind(),
                        binding,
                        true,
                    ),
                )
            },
        },
{
    let update_authority = asset.effective_update_authority(collection);
    let none: Vec<PluginRecord> = Vec::new();
    let inherited = match collection {
        Some(c) => c.plugins.records(),
        None => &none,
    };
    update_in(
        &mut asset.plugins,
        asset.id,
        inherited,
        &asset.revoked,
        Some(asset.owner),
        update_authority,
        caller,
        plugin,
        binding,
        responses,
        log,
    )
}

/// Replaces the payload of a collection's plugin by the one given, whole.
pub fn update_collection_plugin(
    collection: &mut Collection,
    caller: &Address,
    plugin: Plugin,
    binding: Option<AuthorityModel>,
    responses: &Vec<OracleResponse>,
    log: &mut Vec<AuditEvent>,
) -> (result: Result<(), CoreError>)
    ensures
        final(collection).same_but_plugins(old(collection)),
        match update_refusal(
            old(collection).plugins@,
            Seq::<PluginRecord>::empty(),
            Seq::<Revocation>::empty(),
            *caller,
            None,
            Some(old(collection).update_authority),
            plugin.kind(),
            binding,
            responses@,
        ) {
            Some(e) => {
                &&& result == Err::<(), CoreError>(e)
                &&& final(collection).plugins@ == old(collection).plugins@
                &&& final(log)@ == old(log)@
            },
            None => {
                &&& result is Ok
                &&& final(collection).plugins@ == registered(
                    old(collection).plugins@,
                    plugin,
                    binding,
                    true,
                )
                &&& final(log)@ == old(log)@.push(
                    registration_event(
                        old(collection).plugins@,
                        old(collection).id,
                        plugin.kind(),
                        binding,
                        true,
                    ),
                )
            },
        },
{
    let revoked: Vec<Revocation> = Vec::new();
    let inherited: Vec<PluginRecord> = Vec::new();
    update_in(
        &mut collection.plugins,
        collection.id,
        &inherited,
        &revoked,
        None,
        Some(collection.update_authority),
        caller,
        plugin,
        binding,
        responses,
        log,
    )
}

/// Removes a plugin from an asset, hands it back and reports it. The caller
/// must be the plugin's authority.
pub fn remove_plugin(
    asset: &mut Asset,
    collection: Option<&Collection>,
    caller: &Address,
    kind: PluginKind,
    log: &mut Vec<AuditEvent>,
) -> (result: Result<Plugin, CoreError>)
    requires
        old(asset).member_of(collection),
    ensures
        final(asset).same_but_plugins(old(asset)),
        match removal_refusal(
            old(asset).plugins@,
            old(asset).revoked@,
            *caller,
            Some(old(asset).owner),
            old(asset).update_authority_in(collection),
            kind,
        ) {
            Some(e) => {
                &&& result == Err::<Plugin, CoreError>(e)
                &&& final(asset).plugins@ == old(asset).plugins@
                &&& final(log)@ == old(log)@
            },
            None => {
                &&& result == Ok::<Plugin, CoreError>(
                    old(asset).plugins@[slot(old(asset).plugins@, kind)].plugin,
                )
                &&& final(asset).plugins@ == old(asset).plugins@.remove(
                    slot(old(asset).plugins@, kind),
                )
                &&& final(log)@ == old(log)@.push(
                    removal_event(
                        old(asset).id,
                        old(asset).plugins@[slot(old(asset).plugins@, kind)],
                    ),
                )
            },
        },
{
    let update_authority = asset.effective_update_authority(collection);
    remove_from(
        &mut asset.plugins,
        asset.id,
        &asset.revoked,
        Some(asset.owner),
        update_authority,
        caller,
        kind,
        log,
    )
}

/// Removes a plugin from a collection and hands it back.
pub fn remove_collection_plugin(
    collection: &mut Collection,
    caller: &Address,
    kind: PluginKind,
    log: &mut Vec<AuditEvent>,
) -> (result: Result<Plugin, CoreError>)
    ensures
        final(collection).same_but_plugins(old(collection)),
        match removal_refusal(
            old(collection).plugins@,
            Seq::<Revocation>::empty(),
            *caller,
            None,
            Some(old(collection).update_authority),
            kind,
        ) {
            Some(e) => {
                &&& result == Err::<Plugin, CoreError>(e)
                &&& final(collection).plugins@ == old(collection).plugins@
                &&& final(log)@ == old(log)@
            },
            None => {
                &&& result == Ok::<Plugin, CoreError>(
                    old(collection).plugins@[slot(old(collection).plugins@, kind)].plugin,
                )
                &&& final(collection).plugins@ == old(collection).plugins@.remove(
                    slot(old(collection).plugins@, kind),
                )
                &&& final(log)@ == old(log)@.push(
                    removal_event(
                        old(collection).id,
                        old(collection).plugins@[slot(old(collection).plugins@, kind)],
                    ),
                )
            },
        },
{
    let revoked: Vec<Revocation> = Vec::new();
    remove_from(
        &mut collection.plugins,
        collection.id,
        &revoked,
        None,
        Some(collection.update_authority),
        caller,
        kind,
        log,
    )
}

} // verus!
