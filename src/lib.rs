//! A note record, and the decisions of a peer session: how it starts, and what
//! it does on each event of the network stack.

pub mod address;
pub mod record;
pub mod session;
