//! Plugins on uniquely owned assets and on collections of them: who may
//! change a plugin, which plugins are consulted on an operation, and how the
//! editions of a collection are numbered.
//!
//! - [`plugin`] holds the closed set of plugin variants and their payloads.
//! - [`registry`] holds the plugins of one asset or collection, each variant
//!   at most once, and reports what it registers and removes.
//! - [`authority`] decides whether a caller may act on a plugin.
//! - [`hooks`] consults the plugins on a lifecycle event, the asset's own
//!   before its collection's, and stops at the first rejection.
//! - [`edition`] issues the edition numbers of a collection from its counter.
//! - [`create`], [`operations`] and [`lifecycle`] are the operations on assets
//!   and collections; each is applied whole or not at all.
//! - [`instructions`] says what each instruction of the program asks of the
//!   asset registry.
//! - [`laws`] states what holds of all of this on every input.

pub mod address;
pub mod asset;
pub mod authority;
pub mod constants;
pub mod create;
pub mod edition;
pub mod error;
pub mod hooks;
pub mod instructions;
pub mod laws;
pub mod lifecycle;
pub mod operations;
pub mod plugin;
pub mod registry;
