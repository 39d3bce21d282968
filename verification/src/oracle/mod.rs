//! The price oracle: an admin-gated table of five quotations, and the reading
//! of quotations out of an oracle contact's text.

pub mod contract;
pub mod field;
pub mod msg;
pub mod state;
