//! Wire contracts of the Taskveil network: data that is exchanged, framing
//! limits and canonical wire values.
pub mod account;
pub mod envelope;
pub mod hlc;
pub mod organization;
