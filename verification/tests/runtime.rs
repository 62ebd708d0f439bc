use micropricer::processor::MicroPricer;
use micropricer::quote::{Quote, SideQuote};
use micropricer::runtime::{FatalError, InboundEvent, StreamRunner};

fn message(symbol: &str, timestamp: u64) -> InboundEvent<Quote> {
    InboundEvent::Message(Quote {
        symbol: symbol.to_string(),
        timestamp,
        bid_quote: Some(SideQuote { price: 98, size: 50 }),
        ask_quote: Some(SideQuote { price: 101, size: 100 }),
    })
}

#[test]
fn test_process_message_resolves_key_and_topic() {
    let runner = StreamRunner::new(MicroPricer);
    let quote = Quote {
        symbol: "AAPL".to_string(),
        timestamp: 3,
        bid_quote: Some(SideQuote { price: 98, size: 50 }),
        ask_quote: Some(SideQuote { price: 101, size: 100 }),
    };
    let envelopes = runner.process_message(quote).expect("valid quote");
    assert_eq!(envelopes.len(), 1);
    assert_eq!(envelopes[0].key, "AAPL");
    assert_eq!(envelopes[0].topic, "microprice");
    assert_eq!(envelopes[0].payload.ticker, "AAPL");
    assert!(envelopes[0].payload.microprice.equals_int(99));
}

#[test]
fn test_one_malformed_then_valid_messages() {
    let runner = StreamRunner::new(MicroPricer);
    let events = vec![
        InboundEvent::Malformed,
        message("A", 1),
        message("B", 2),
        message("C", 3),
    ];
    let report = runner.run(events);
    assert_eq!(report.envelopes.len(), 3);
    assert_eq!(report.errors, 1);
    assert_eq!(report.outcome, Ok(()));
}

#[test]
fn test_outputs_keep_stream_order() {
    let runner = StreamRunner::new(MicroPricer);
    let report = runner.run(vec![message("A", 1), message("B", 2)]);
    assert_eq!(report.envelopes.len(), 2);
    assert_eq!(report.envelopes[0].key, "A");
    assert_eq!(report.envelopes[1].key, "B");
}

#[test]
fn test_handler_error_is_counted_and_skipped() {
    let runner = StreamRunner::new(MicroPricer);
    let one_sided = InboundEvent::Message(Quote {
        symbol: "A".to_string(),
        timestamp: 1,
        bid_quote: None,
        ask_quote: Some(SideQuote { price: 101, size: 100 }),
    });
    let report = runner.run(vec![one_sided, message("B", 2)]);
    assert_eq!(report.envelopes.len(), 1);
    assert_eq!(report.envelopes[0].key, "B");
    assert_eq!(report.errors, 1);
    assert_eq!(report.outcome, Ok(()));
}

#[test]
fn test_graceful_close_stops_the_run() {
    let runner = StreamRunner::new(MicroPricer);
    let report = runner.run(vec![message("A", 1), InboundEvent::Closed, message("B", 2)]);
    assert_eq!(report.envelopes.len(), 1);
    assert_eq!(report.errors, 0);
    assert_eq!(report.outcome, Ok(()));
}

#[test]
fn test_transport_fault_is_fatal_but_flushes_earlier_output() {
    let runner = StreamRunner::new(MicroPricer);
    let report = runner.run(vec![message("A", 1), InboundEvent::Fault, message("B", 2)]);
    assert_eq!(report.envelopes.len(), 1);
    assert_eq!(report.envelopes[0].key, "A");
    assert_eq!(report.outcome, Err(FatalError::InboundTransport));
}

#[test]
fn test_empty_stream_ends_gracefully() {
    let runner = StreamRunner::new(MicroPricer);
    let report = runner.run(Vec::new());
    assert_eq!(report.envelopes.len(), 0);
    assert_eq!(report.errors, 0);
    assert_eq!(report.outcome, Ok(()));
}
