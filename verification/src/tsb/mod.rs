//! The TSB reader: a read-only relay to the chain's token module, with three
//! views that it puts together from several primitive lookups.

pub mod msg;
pub mod router;
pub mod views;
