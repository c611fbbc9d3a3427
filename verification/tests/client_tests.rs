use std::cell::{Cell, RefCell};

use forex_client::backend::{Backend, Context, QuoteResponse, Response, TransportError};
use forex_client::client::{Client, ListError, Params};
use forex_client::form::Values;
use forex_client::records::{ForexPair, Record, YfinError};

/// Answers every call with a fixed envelope and counts how often it was
/// invoked; records the `sym` field of the body it was handed.
struct StubBackend {
    result: Vec<ForexPair>,
    error: Option<YfinError>,
    calls: Cell<u32>,
    seen_sym: RefCell<Option<String>>,
    seen_endpoint: RefCell<Option<String>>,
}

impl StubBackend {
    fn returning(result: Vec<ForexPair>, error: Option<YfinError>) -> StubBackend {
        StubBackend {
            result,
            error,
            calls: Cell::new(0),
            seen_sym: RefCell::new(None),
            seen_endpoint: RefCell::new(None),
        }
    }
}

impl Backend for StubBackend {
    fn call(
        &self,
        endpoint: &str,
        body: &Values,
        _context: Option<Context>,
    ) -> Result<Response, TransportError> {
        self.calls.set(self.calls.get() + 1);
        *self.seen_sym.borrow_mut() = body.get("sym").cloned();
        *self.seen_endpoint.borrow_mut() = Some(endpoint.to_owned());
        Ok(Response {
            quote_response: QuoteResponse {
                result: self.result.clone(),
                error: self.error.clone(),
            },
        })
    }
}

/// Fails every call with a fixed transport error.
struct FailingBackend {
    message: String,
    calls: Cell<u32>,
}

impl Backend for FailingBackend {
    fn call(
        &self,
        _endpoint: &str,
        _body: &Values,
        _context: Option<Context>,
    ) -> Result<Response, TransportError> {
        self.calls.set(self.calls.get() + 1);
        Err(TransportError {
            message: self.message.clone(),
        })
    }
}

fn quote(symbol: &str) -> ForexPair {
    ForexPair {
        symbol: symbol.to_owned(),
    }
}

fn symbol_of(record: &Record) -> &str {
    match record {
        Record::ForexPair(fp) => &fp.symbol,
    }
}

#[test]
fn empty_symbols_fail_without_backend_call() {
    let backend = StubBackend::returning(vec![quote("EUR=X")], None);
    let client = Client::with_backend(&backend);
    let outcome = client.list_p(Params::new(Vec::new()));
    assert!(matches!(outcome, Err(ListError::Argument(_))));
    assert_eq!(backend.calls.get(), 0);
}

#[test]
fn non_empty_symbols_make_exactly_one_backend_call() {
    let backend = StubBackend::returning(Vec::new(), None);
    let client = Client::with_backend(&backend);
    let outcome = client.list_p(Params::new(vec!["EUR=X".to_owned()]));
    assert!(outcome.is_ok());
    assert_eq!(backend.calls.get(), 1);
}

#[test]
fn body_sym_field_is_comma_joined_symbols() {
    let backend = StubBackend::returning(Vec::new(), None);
    let client = Client::with_backend(&backend);
    let params = Params::new(vec!["EUR".to_owned(), "USD".to_owned()]);
    client.list_p(params).unwrap();
    assert_eq!(backend.seen_sym.borrow().as_deref(), Some("EUR,USD"));
}

#[test]
fn duplicate_symbols_are_joined_as_given() {
    let backend = StubBackend::returning(Vec::new(), None);
    let client = Client::with_backend(&backend);
    let params = Params::new(vec!["EUR".to_owned(), "EUR".to_owned(), "USD".to_owned()]);
    client.list_p(params).unwrap();
    assert_eq!(backend.seen_sym.borrow().as_deref(), Some("EUR,EUR,USD"));
}

#[test]
fn quote_endpoint_is_called() {
    let backend = StubBackend::returning(Vec::new(), None);
    let client = Client::with_backend(&backend);
    client.list_p(Params::new(vec!["EUR=X".to_owned()])).unwrap();
    assert_eq!(
        backend.seen_endpoint.borrow().as_deref(),
        Some("/v7/finance/quote")
    );
}

#[test]
fn stub_records_drain_last_in_first_out() {
    let backend = StubBackend::returning(vec![quote("R1"), quote("R2"), quote("R3")], None);
    let client = Client::with_backend(&backend);
    let mut it = client.list_p(Params::new(vec!["EUR=X".to_owned()])).unwrap();
    assert_eq!(it.forex_pair().map(|fp| fp.symbol.as_str()), Some("R1"));
    assert_eq!(it.next().as_ref().map(symbol_of), Some("R3"));
    assert_eq!(it.next().as_ref().map(symbol_of), Some("R2"));
    assert_eq!(it.next().as_ref().map(symbol_of), Some("R1"));
    assert!(it.next().is_none());
}

#[test]
fn transport_error_passes_through_unchanged() {
    let backend = FailingBackend {
        message: "connection reset".to_owned(),
        calls: Cell::new(0),
    };
    let client = Client::with_backend(&backend);
    let outcome = client.list_p(Params::new(vec!["EUR=X".to_owned()]));
    match outcome {
        Err(ListError::Transport(e)) => assert_eq!(e.message, "connection reset"),
        _ => panic!("expected the transport error to pass through"),
    }
}

#[test]
fn provider_error_travels_beside_empty_results() {
    let e = YfinError {
        code: "Not Found".to_owned(),
        description: "No data found, symbol may be delisted".to_owned(),
    };
    let backend = StubBackend::returning(Vec::new(), Some(e));
    let client = Client::with_backend(&backend);
    let mut it = client.list_p(Params::new(vec!["EUR=X".to_owned()])).unwrap();
    assert_eq!(it.err().map(|e| e.code.as_str()), Some("Not Found"));
    assert!(it.next().is_none());
}

#[test]
fn provider_error_travels_beside_records() {
    let e = YfinError {
        code: "partial".to_owned(),
        description: "One symbol failed".to_owned(),
    };
    let backend = StubBackend::returning(vec![quote("R1")], Some(e));
    let client = Client::with_backend(&backend);
    let mut it = client.list_p(Params::new(vec!["EUR=X".to_owned()])).unwrap();
    assert_eq!(it.err().map(|e| e.code.as_str()), Some("partial"));
    assert_eq!(it.next().as_ref().map(symbol_of), Some("R1"));
}

#[test]
fn default_client_answers_with_empty_envelope() {
    let client = Client::new();
    let mut it = client.list_p(Params::new(vec!["EUR=X".to_owned()])).unwrap();
    assert!(it.err().is_none());
    assert!(it.forex_pair().is_none());
    assert!(it.next().is_none());
}

// A shared backend reference serves several clients: it holds no per-call
// mutable state of its own.
#[test]
fn one_backend_serves_many_clients() {
    let backend = StubBackend::returning(Vec::new(), None);
    let first = Client::with_backend(&backend);
    let second = Client::with_backend(&backend);
    first.list_p(Params::new(vec!["EUR=X".to_owned()])).unwrap();
    second.list_p(Params::new(vec!["JPY=X".to_owned()])).unwrap();
    assert_eq!(backend.calls.get(), 2);
}
