//! A client that keeps storage orders on a ledger and the stored bytes on a
//! separate storage backend coherent: content fingerprinting, an order-id
//! cache with ledger-scan fallback, and the add / get / delete protocols as
//! verified state machines that a transport layer drives.
use vstd::prelude::*;

pub mod cache;
pub mod client;
pub mod error;
pub mod fingerprint;
pub mod guarantees;
pub mod ledger;
