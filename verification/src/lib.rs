//! An invoice-factoring ledger.
//!
//! Sellers list unpaid invoices at a discount, buyers purchase them, and the
//! ledger tracks each invoice's lifecycle together with platform-wide
//! aggregate statistics.  The `ledger` module holds the state machine; the
//! `pricing` module holds the discount arithmetic.

pub mod ledger;
pub mod pricing;

pub use ledger::Error;
pub use ledger::Identity;
pub use ledger::Invoice;
pub use ledger::InvoiceBook;
pub use ledger::InvoiceFactoringContract;
pub use ledger::PlatformStats;
