//! Taskveil core: the verified rules of an end-to-end encrypted task manager.
//!
//! Every item of this crate is checked by Verus. What it decides is a function of
//! plain values; files, sockets, clocks and key stores stay with the program
//! around it.
pub mod account_persistence;
pub mod account_runtime;
pub mod bridge;
pub mod bytes;
pub mod credentials;
pub mod domain;
pub mod error;
pub mod external;
pub mod ids;
pub mod laws;
pub mod local_crypto;
pub mod login;
pub mod model;
pub mod order;
pub mod organization_flow;
pub mod organization_manifest;
pub mod organization_trust;
pub mod profile_coordination;
pub mod profile_runtime;
pub mod protocol;
pub mod sync;
pub mod sync_convert;
pub mod sync_run;
pub mod sync_store;
pub mod text;
pub mod windows_security;
