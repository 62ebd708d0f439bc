use micropricer::processor::{MicroPricer, PricerError, StreamProcessor};
use micropricer::quote::{Quote, SideQuote};

fn quote(symbol: &str, timestamp: u64, bid: Option<(u64, u32)>, ask: Option<(u64, u32)>) -> Quote {
    Quote {
        symbol: symbol.to_string(),
        timestamp,
        bid_quote: bid.map(|(price, size)| SideQuote { price, size }),
        ask_quote: ask.map(|(price, size)| SideQuote { price, size }),
    }
}

#[test]
fn test_handle_emits_one_record() {
    let p = MicroPricer;
    let r = p.handle_message(quote("AAPL", 7, Some((98, 50)), Some((101, 100))));
    let outputs = r.expect("both sides present").expect("a record is owed");
    assert_eq!(outputs.len(), 1);
    assert_eq!(outputs[0].ticker, "AAPL");
    assert_eq!(outputs[0].timestamp, 7);
    assert_eq!(outputs[0].midprice.num, 199);
    assert_eq!(outputs[0].midprice.den, 2);
    assert!(outputs[0].microprice.equals_int(99));
}

#[test]
fn test_missing_bid_is_reported() {
    let p = MicroPricer;
    let r = p.handle_message(quote("AAPL", 1, None, Some((101, 100))));
    assert_eq!(r, Err(PricerError::MissingBid));
}

#[test]
fn test_missing_ask_is_reported() {
    let p = MicroPricer;
    let r = p.handle_message(quote("AAPL", 1, Some((98, 50)), None));
    assert_eq!(r, Err(PricerError::MissingAsk));
}

#[test]
fn test_zero_combined_size_is_a_domain_error() {
    let p = MicroPricer;
    let r = p.handle_message(quote("AAPL", 1, Some((98, 0)), Some((101, 0))));
    assert_eq!(r, Err(PricerError::ZeroCombinedSize));
}

#[test]
fn test_key_depends_on_instrument_alone() {
    let p = MicroPricer;
    let early = p
        .handle_message(quote("MSFT", 1, Some((98, 50)), Some((101, 100))))
        .unwrap()
        .unwrap();
    let late = p
        .handle_message(quote("MSFT", 99, Some((90, 10)), Some((110, 20))))
        .unwrap()
        .unwrap();
    assert_eq!(p.assign_key(&early[0]), p.assign_key(&early[0]));
    assert_eq!(p.assign_key(&early[0]), p.assign_key(&late[0]));
    assert_eq!(p.assign_key(&early[0]), "MSFT");
}

#[test]
fn test_topic_is_constant() {
    let p = MicroPricer;
    let outputs = p
        .handle_message(quote("AAPL", 1, Some((98, 50)), Some((101, 100))))
        .unwrap()
        .unwrap();
    assert_eq!(p.assign_topic(&outputs[0]), "microprice");
}
