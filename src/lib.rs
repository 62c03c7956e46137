//! A two-party escrow whose custody holding is controlled by a keyless authority derived
//! from the participants, the asset and an index. The sender deposits; the receiver may
//! complete, or the sender pull back, each only in the right stage of the record.

pub mod authority;
pub mod error;
pub mod grant;
pub mod key;
pub mod laws;
pub mod stage;
