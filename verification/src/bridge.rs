//! What a frontend sees: plain values, stable error codes, and one function for each
//! thing that it may ask of the client.
//!
//! A function takes the client as the operation it is to run, or as the failure to
//! reach it. What the client answers after a wait is handed in as the answer.
pub mod account;
pub mod conversions;
pub mod dto;
pub mod error;
pub mod lists;
pub mod reminders;
pub mod series;
pub mod settings;
pub mod tasks;
pub mod timers;

use vstd::prelude::*;

verus! {

} // verus!
