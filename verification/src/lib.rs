//! Lifecycle bookkeeping for paid messages: a record is bound to a message
//! when postage is attached, follows delivery and read receipts, and ends in
//! one outcome of the postage escrow (settled, refunded, disputed, expired or
//! reclaimed).

pub mod types;
pub mod rules;
pub mod model;
pub mod contract;
pub mod laws;
pub mod sequences;
