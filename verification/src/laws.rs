//! What holds of the library as a whole, stated over what goes into its operations and
//! what comes out of them.
pub mod account;
pub mod bridge;
pub mod changes;
pub mod decisions;
pub mod formats;
pub mod keys;
pub mod operations;
pub mod organization;
pub mod profile;
pub mod records;
pub mod security;
pub mod sync;
