//! Client-side coordination layer for submitting signed transactions to a
//! distributed ledger maintained by independent validator nodes.

pub mod error;
pub mod trusted;
pub mod text;
pub mod ids;
pub mod config;
pub mod genesis;
pub mod requests;
pub mod ledger;
pub mod rendezvous;
pub mod pool;
pub mod creds;
