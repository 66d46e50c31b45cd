//! Vault lifecycle supervision: the decisions that lock, unlock and relocate
//! encrypted vaults, stated as contracts and proved.

pub mod dashboard;
pub mod lifecycle;
pub mod models;
pub mod process_health;
pub mod storage;
pub mod text;
pub mod vault_handler;
pub mod vault_handler_error;
pub mod vault_service;
pub mod vault_service_error;
