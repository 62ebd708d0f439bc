//! The stream-transformation contract and the reference transformation.
//!
//! `StreamProcessor` is the interface a developer implements once per data
//! product: a handler that turns one input into zero or more outputs or a
//! per-message error, plus pure key and topic resolvers used for routing.
//! `MicroPricer` is the reference implementation, deriving midprice and
//! microprice records from quotes.

use vstd::prelude::*;

verus! {

use crate::pricing::{calculate_microprice, calculate_midprice, combined_size, microprice_num};
use crate::quote::{MicroPrice, Quote};
use crate::rational::Rational;

/// Relates the value `handle_message` returned to the value its
/// specification prescribes: same shape, equal error, and the produced
/// vector holding exactly the prescribed outputs in the prescribed order.
pub open spec fn handle_matches<O, E>(
    r: Result<Option<Vec<O>>, E>,
    s: Result<Option<Seq<O>>, E>,
) -> bool {
    match r {
        Ok(Some(v)) => s matches Ok(Some(sq)) && v@ == sq,
        Ok(None) => s matches Ok(opt) && opt is None,
        Err(e) => s matches Err(e2) && e == e2,
    }
}

/// The transformation contract.
///
/// An implementer declares an input type, an output type and an error kind,
/// and gives the three operations their meaning through the spec functions:
/// `handle_message` must return exactly what `handle_spec` prescribes, and
/// the key and topic resolvers are pure functions of the output value alone —
/// identical outputs always yield identical keys, which is what guarantees
/// that all records for one instrument serialize through one partition.
pub trait StreamProcessor {
    /// The decoded inbound message type.
    type Input;

    /// The produced record type.
    type Output;

    /// The per-message (recoverable) error kind.
    type Error;

    /// What `handle_message` returns: `Err` for an unprocessable input,
    /// `Ok(None)` for "no output for this input" (not an error), and
    /// `Ok(Some(outputs))` otherwise, in order.
    spec fn handle_spec(&self, input: Self::Input) -> Result<Option<Seq<Self::Output>>, Self::Error>;

    /// The routing key of an output, as a sequence of characters.
    spec fn key_spec(&self, output: Self::Output) -> Seq<char>;

    /// The destination topic of an output, as a sequence of characters.
    spec fn topic_spec(&self, output: Self::Output) -> Seq<char>;

    /// Turns one input into zero or more outputs, or a per-message error.
    fn handle_message(&self, input: Self::Input) -> (r: Result<Option<Vec<Self::Output>>, Self::Error>)
        ensures
            handle_matches(r, self.handle_spec(input)),
    ;

    /// Resolves the routing key of one output. Pure and total: it never fails.
    fn assign_key(&self, output: &Self::Output) -> (r: String)
        ensures
            r@ == self.key_spec(*output),
    ;

    /// Resolves the destination topic of one output. Pure and total.
    fn assign_topic(&self, output: &Self::Output) -> (r: String)
        ensures
            r@ == self.topic_spec(*output),
    ;
}

/// Why one quote yielded no record: the error kinds the reference
/// transformation can report for a single message.
#[derive(Clone, Copy, Debug, PartialEq, Eq, Structural)]
pub enum PricerError {
    /// The quote carries no bid side.
    MissingBid,
    /// The quote carries no ask side.
    MissingAsk,
    /// Both sides are present but their sizes sum to zero, so the
    /// size-weighted average is undefined.
    ZeroCombinedSize,
}

/// The reference transformation: one derived pricing record per quote that
/// carries both sides and a positive combined size.
pub struct MicroPricer;

/// The record `MicroPricer` derives from a quote whose two sides are present.
pub open spec fn derived_record(input: Quote) -> MicroPrice {
    let bid = input.bid_quote->Some_0;
    let ask = input.ask_quote->Some_0;
    MicroPrice {
        ticker: input.symbol,
        timestamp: input.timestamp,
        midprice: Rational { num: (bid.price + ask.price) as u128, den: 2 },
        microprice: Rational {
            num: microprice_num(ask.price, ask.size, bid.price, bid.size) as u128,
            den: combined_size(ask.size, bid.size) as u128,
        },
    }
}

impl StreamProcessor for MicroPricer {
    type Input = Quote;

    type Output = MicroPrice;

    type Error = PricerError;

    open spec fn handle_spec(&self, input: Quote) -> Result<Option<Seq<MicroPrice>>, PricerError> {
        if input.bid_quote is None {
            Err(PricerError::MissingBid)
        } else if input.ask_quote is None {
            Err(PricerError::MissingAsk)
        } else if combined_size(input.ask_quote->Some_0.size, input.bid_quote->Some_0.size) == 0 {
            Err(PricerError::ZeroCombinedSize)
        } else {
            Ok(Some(seq![derived_record(input)]))
        }
    }

    open spec fn key_spec(&self, output: MicroPrice) -> Seq<char> {
        output.ticker@
    }

    open spec fn topic_spec(&self, output: MicroPrice) -> Seq<char> {
        "microprice"@
    }

    fn handle_message(&self, input: Quote) -> (r: Result<Option<Vec<MicroPrice>>, PricerError>) {
        let bid = match input.bid_quote {
            Some(b) => b,
            None => {
                return Err(PricerError::MissingBid);
            },
        };
        let ask = match input.ask_quote {
            Some(a) => a,
            None => {
                return Err(PricerError::MissingAsk);
            },
        };
        if bid.size == 0 && ask.size == 0 {
            return Err(PricerError::ZeroCombinedSize);
        }
        let record = MicroPrice {
            ticker: input.symbol,
            timestamp: input.timestamp,
            midprice: calculate_midprice(bid.price, ask.price),
            microprice: calculate_microprice(ask.price, ask.size, bid.price, bid.size),
        };
        proof {
            assert(record == derived_record(input));
        }
        let mut outputs: Vec<MicroPrice> = Vec::new();
        outputs.push(record);
        proof {
            assert(outputs@ =~= seq![derived_record(input)]);
        }
        Ok(Some(outputs))
    }

    fn assign_key(&self, output: &MicroPrice) -> (r: String) {
        output.ticker.clone()
    }

    fn assign_topic(&self, output: &MicroPrice) -> (r: String) {
        "microprice".to_string()
    }
}

/// Law (routing affinity): the key of a derived record depends on the
/// instrument alone — two records with the same ticker, however much the
/// timestamps or prices differ, resolve to the same key.
pub proof fn lemma_key_affinity(p: MicroPricer, a: MicroPrice, b: MicroPrice)
    requires
        a.ticker@ == b.ticker@,
    ensures
        p.key_spec(a) == p.key_spec(b),
{
}

/// Law (midprice is the mean): a derived record's midprice equals the
/// arithmetic mean of the bid and ask prices.
pub proof fn lemma_midprice_mean(input: Quote)
    requires
        input.bid_quote is Some,
        input.ask_quote is Some,
    ensures
        derived_record(input).midprice.wf(),
        derived_record(input).midprice.eq_frac(
            input.bid_quote->Some_0.price + input.ask_quote->Some_0.price,
            2,
        ),
{
}

/// Law (midprice ignores sizes): two quotes that agree on both prices get
/// the same midprice, whatever sizes they carry.
pub proof fn lemma_midprice_size_independent(a: Quote, b: Quote)
    requires
        a.bid_quote is Some,
        a.ask_quote is Some,
        b.bid_quote is Some,
        b.ask_quote is Some,
        a.bid_quote->Some_0.price == b.bid_quote->Some_0.price,
        a.ask_quote->Some_0.price == b.ask_quote->Some_0.price,
    ensures
        derived_record(a).midprice == derived_record(b).midprice,
{
}

/// Law (weighted average): with a positive combined size, a derived record's
/// microprice lies between the bid and ask prices, inclusive.
pub proof fn lemma_microprice_between_record(input: Quote)
    requires
        input.bid_quote is Some,
        input.ask_quote is Some,
        combined_size(input.ask_quote->Some_0.size, input.bid_quote->Some_0.size) > 0,
    ensures
        derived_record(input).microprice.wf(),
        derived_record(input).microprice.geq_int(
            vstd::math::min(
                input.bid_quote->Some_0.price as int,
                input.ask_quote->Some_0.price as int,
            ),
        ),
        derived_record(input).microprice.leq_int(
            vstd::math::max(
                input.bid_quote->Some_0.price as int,
                input.ask_quote->Some_0.price as int,
            ),
        ),
{
    let bid = input.bid_quote->Some_0;
    let ask = input.ask_quote->Some_0;
    crate::pricing::lemma_microprice_num_in_range(ask.price, ask.size, bid.price, bid.size);
    assert(derived_record(input).microprice.num
        == microprice_num(ask.price, ask.size, bid.price, bid.size));
    crate::pricing::lemma_microprice_between(ask.price, ask.size, bid.price, bid.size);
}

/// Law (thin-ask limit): with the ask side empty and a posted bid size, the
/// microprice equals the ask price exactly.
pub proof fn lemma_microprice_thin_ask_record(input: Quote)
    requires
        input.bid_quote is Some,
        input.ask_quote is Some,
        input.ask_quote->Some_0.size == 0,
        input.bid_quote->Some_0.size > 0,
    ensures
        derived_record(input).microprice.wf(),
        derived_record(input).microprice.eq_int(input.ask_quote->Some_0.price as int),
{
    let bid = input.bid_quote->Some_0;
    let ask = input.ask_quote->Some_0;
    crate::pricing::lemma_microprice_num_in_range(ask.price, ask.size, bid.price, bid.size);
    assert(derived_record(input).microprice.num
        == microprice_num(ask.price, ask.size, bid.price, bid.size));
    crate::pricing::lemma_microprice_thin_ask(ask.price, bid.price, bid.size);
}

/// Law (thin-bid limit): with the bid side empty and a posted ask size, the
/// microprice equals the bid price exactly.
pub proof fn lemma_microprice_thin_bid_record(input: Quote)
    requires
        input.bid_quote is Some,
        input.ask_quote is Some,
        input.bid_quote->Some_0.size == 0,
        input.ask_quote->Some_0.size > 0,
    ensures
        derived_record(input).microprice.wf(),
        derived_record(input).microprice.eq_int(input.bid_quote->Some_0.price as int),
{
    let bid = input.bid_quote->Some_0;
    let ask = input.ask_quote->Some_0;
    crate::pricing::lemma_microprice_num_in_range(ask.price, ask.size, bid.price, bid.size);
    assert(derived_record(input).microprice.num
        == microprice_num(ask.price, ask.size, bid.price, bid.size));
    crate::pricing::lemma_microprice_thin_bid(ask.price, ask.size, bid.price);
}

} // verus!
