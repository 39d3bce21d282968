//! Verified core of the Torram price oracle and TSB reader contracts.

pub mod decimal;
pub mod error;
pub mod oracle;
pub mod response;
pub mod text;
pub mod tsb;
