//! Benefit-card statements from two providers, normalised into one ledger
//! and rendered as an OFX document.

pub mod caju;
pub mod calendar;
pub mod error;
pub mod flash;
pub mod http;
pub mod ofx;
pub mod reader;
pub mod text;
pub mod xml;

pub use calendar::try_into_month;
