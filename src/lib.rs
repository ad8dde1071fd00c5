//! A ledger-backed ticket counter: a saturating running total of minted
//! tickets and the owner named by the most recent successful mint.
//!
//! The durable store and the authorization check belong to the host; the
//! ledger state is handed in as a value and the outcome of the caller's
//! authorization check is handed in as an event.

pub mod ledger;
