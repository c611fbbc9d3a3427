//! The typed records a quote response carries and the error a provider can
//! report inside an otherwise successful response.

use vstd::prelude::*;

verus! {

/// One currency-pair quote as the provider returns it.
#[derive(Debug, Clone)]
pub struct ForexPair {
    /// The pair's symbol, e.g. `EURUSD=X`.
    pub symbol: String,
}

/// A result record, tagged by kind. A quote response currently carries only
/// currency-pair quotes; further kinds would become further variants.
#[derive(Debug, Clone)]
pub enum Record {
    ForexPair(ForexPair),
}

/// An error the provider reports inside a response envelope. It travels as
/// data beside any records the same response carries; it is never raised as
/// a failure of the call itself.
#[derive(Debug, Clone)]
pub struct YfinError {
    /// The provider's error code.
    pub code: String,
    /// The provider's description of what went wrong.
    pub description: String,
}

} // verus!
