//! A client for batch foreign-exchange quote lookups.
//!
//! A [`client::Client`] validates caller-supplied request parameters, encodes
//! them into a form body, hands the body to a swappable [`client::Backend`],
//! and adapts the provider's response envelope into an [`iter::Iter`]: a
//! single-pass, order-reversing sequence of records carried alongside any
//! provider-reported error.

pub mod backend;
pub mod client;
pub mod form;
pub mod iter;
pub mod records;
