//! The reference numeric computations: midprice and microprice.
//!
//! Both are exact rationals over fixed-point integer prices, so the
//! weighted-average and limit laws below hold with no rounding caveat.

use vstd::prelude::*;

verus! {

use vstd::math::{max, min};
use crate::rational::Rational;

/// Numerator of the microprice: `ask_price` weighted by the bid size plus
/// `bid_price` weighted by the ask size. The denominator is the combined size.
pub open spec fn microprice_num(ask_price: u64, ask_size: u32, bid_price: u64, bid_size: u32) -> int {
    ask_price * bid_size + bid_price * ask_size
}

/// Combined size of the two sides: the microprice's denominator.
pub open spec fn combined_size(ask_size: u32, bid_size: u32) -> int {
    bid_size + ask_size
}

/// The size-weighted microprice, exactly.
///
/// Weights lean toward the thinner side: `ask_price` carries the *bid* size
/// and `bid_price` carries the *ask* size, so the result approaches the price
/// of whichever side is about to be exhausted first.
pub fn calculate_microprice(ask_price: u64, ask_size: u32, bid_price: u64, bid_size: u32) -> (r: Rational)
    requires
        combined_size(ask_size, bid_size) > 0,
    ensures
        r.wf(),
        r.num == microprice_num(ask_price, ask_size, bid_price, bid_size),
        r.den == combined_size(ask_size, bid_size),
{
    let total: u128 = bid_size as u128 + ask_size as u128;
    proof {
        assert(ask_price as int * bid_size as int + bid_price as int * ask_size as int
            <= u128::MAX) by (nonlinear_arith)
            requires
                ask_price as int <= u64::MAX as int,
                bid_price as int <= u64::MAX as int,
                0 <= ask_size as int <= u32::MAX as int,
                0 <= bid_size as int <= u32::MAX as int,
        ;
    }
    let weighted: u128 = ask_price as u128 * bid_size as u128
        + bid_price as u128 * ask_size as u128;
    Rational { num: weighted, den: total }
}

/// The midprice: the arithmetic mean of the bid and ask prices, exactly.
pub fn calculate_midprice(bid_price: u64, ask_price: u64) -> (r: Rational)
    ensures
        r.wf(),
        r.num == bid_price + ask_price,
        r.den == 2,
{
    Rational { num: bid_price as u128 + ask_price as u128, den: 2 }
}

/// The microprice numerator is nonnegative and fits the word it is stored in.
pub proof fn lemma_microprice_num_in_range(ask_price: u64, ask_size: u32, bid_price: u64, bid_size: u32)
    ensures
        0 <= microprice_num(ask_price, ask_size, bid_price, bid_size) <= u128::MAX,
{
    assert(0 <= ask_price * bid_size + bid_price * ask_size <= u128::MAX)
        by (nonlinear_arith)
        requires
            0 <= ask_price as int <= u64::MAX as int,
            0 <= bid_price as int <= u64::MAX as int,
            0 <= ask_size as int <= u32::MAX as int,
            0 <= bid_size as int <= u32::MAX as int,
    ;
}

/// Law: for positive combined size the microprice lies between the bid and
/// ask prices, inclusive — it is a weighted average of the two.
pub proof fn lemma_microprice_between(ask_price: u64, ask_size: u32, bid_price: u64, bid_size: u32)
    requires
        combined_size(ask_size, bid_size) > 0,
    ensures
        microprice_num(ask_price, ask_size, bid_price, bid_size)
            >= min(bid_price as int, ask_price as int) * combined_size(ask_size, bid_size),
        microprice_num(ask_price, ask_size, bid_price, bid_size)
            <= max(bid_price as int, ask_price as int) * combined_size(ask_size, bid_size),
{
    let lo = min(bid_price as int, ask_price as int);
    let hi = max(bid_price as int, ask_price as int);
    assert(ask_price * bid_size + bid_price * ask_size >= lo * (bid_size + ask_size)
        && ask_price * bid_size + bid_price * ask_size <= hi * (bid_size + ask_size))
        by (nonlinear_arith)
        requires
            lo <= ask_price as int <= hi,
            lo <= bid_price as int <= hi,
            ask_size >= 0,
            bid_size >= 0,
    ;
}

/// Law (thin-ask limit): with the ask side empty, the microprice equals the
/// ask price exactly.
pub proof fn lemma_microprice_thin_ask(ask_price: u64, bid_price: u64, bid_size: u32)
    requires
        bid_size > 0,
    ensures
        microprice_num(ask_price, 0, bid_price, bid_size)
            == ask_price * combined_size(0, bid_size),
{
}

/// Law (thin-bid limit): with the bid side empty, the microprice equals the
/// bid price exactly.
pub proof fn lemma_microprice_thin_bid(ask_price: u64, ask_size: u32, bid_price: u64)
    requires
        ask_size > 0,
    ensures
        microprice_num(ask_price, ask_size, bid_price, 0)
            == bid_price * combined_size(ask_size, 0),
{
}

} // verus!
