//! The rules of a token escrow: deals between a buyer and a seller, funded
//! into a vault, released in parts, disputed before an arbitrator, or
//! refunded once they expire.
pub mod key;
pub mod state;
pub mod accounts;
pub mod instructions;
pub mod address;
pub mod laws;
pub mod entry;
