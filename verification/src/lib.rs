//! Verified core of the Kora invoice-financing protocol: the invoice
//! lifecycle, protocol access control with multisig governance, the
//! marketplace for invoice listings, and dispute resolution.
pub mod invoice_state_machine;
pub mod types;
pub mod audit;
pub mod access_control;
pub mod dispute_resolution;
pub mod marketplace;
pub mod fuzz_values;
