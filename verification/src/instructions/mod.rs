//! The instructions of the program: what each hands to the asset registry.

pub mod add_plugins_to_collections;
pub mod add_plugins_to_nft;
pub mod burn_nft;
pub mod create_collection;
pub mod create_edition;
pub mod create_nft;
pub mod request;
pub mod transfer_nft;
pub mod update_nft_metadata;
pub mod update_nft_plugin;
