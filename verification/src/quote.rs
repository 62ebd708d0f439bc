//! The market-data types the transformation works on.
//!
//! Prices are fixed-point integers: counts of the deployment's smallest
//! price increment. The boundary that decodes wire messages converts into
//! this representation before handing a `Quote` to the library.

use vstd::prelude::*;

verus! {

use crate::rational::Rational;

/// One side of the book: the best posted price and the size resting at it.
#[derive(Clone, Copy, Debug, PartialEq, Eq, Structural)]
pub struct SideQuote {
    /// Price in fixed-point price units.
    pub price: u64,
    /// Quantity posted at that price.
    pub size: u32,
}

/// A snapshot of the best bid and/or best ask for one instrument.
///
/// Either side may be absent: an instrument with no quote posted yet on that
/// side is a valid upstream state, not corruption.
pub struct Quote {
    /// Instrument identifier.
    pub symbol: String,
    /// Monotonic timestamp assigned upstream.
    pub timestamp: u64,
    /// Best bid, if one is posted.
    pub bid_quote: Option<SideQuote>,
    /// Best ask, if one is posted.
    pub ask_quote: Option<SideQuote>,
}

/// The derived pricing record: immutable once constructed, and only
/// constructed when both sides of the source quote are present.
#[derive(Debug, PartialEq, Eq)]
pub struct MicroPrice {
    /// Instrument identifier, copied from the source quote.
    pub ticker: String,
    /// Timestamp, copied from the source quote.
    pub timestamp: u64,
    /// Arithmetic mean of the bid and ask prices.
    pub midprice: Rational,
    /// Size-weighted price leaning toward the thinner side.
    pub microprice: Rational,
}

} // verus!
