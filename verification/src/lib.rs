//! Core of a background-removal tool: the model-artifact catalog, the
//! resolver that maps a user-supplied model specifier to a local file path,
//! the bookkeeping of a streamed download, and the contract a mask
//! vectorizer must satisfy.
//!
//! All network and disk side effects are performed by the caller; this crate
//! holds the decisions and the accounting, with contracts checked by Verus.

pub mod acquire;
pub mod error;
pub mod models;
pub mod vectorizer;

pub use error::BgrError;
pub use error::BgrResult;
