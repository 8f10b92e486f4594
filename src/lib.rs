//! Records and state transitions of a merchant-promotion ledger: merchants,
//! deals tied to an item collection, recorded sales, and stake claims.
pub mod address;
pub mod errors;
pub mod state;
pub mod table;
pub mod ledger;
pub mod laws;
