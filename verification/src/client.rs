//! The quote client: parameter validation, request encoding, the single
//! backend call, and adaptation of the response into a result sequence.

use crate::backend::{Backend, Context, Response, TransportError, YFinBackend};
use crate::form::{append_to, Values};
use crate::iter::Iter;
use crate::records::{ForexPair, Record};
use vstd::prelude::*;

verus! {

/// The error for invalid request parameters: the symbol list was empty.
/// Raised before any network access; the caller recovers by correcting the
/// input.
#[derive(Debug, Clone)]
pub struct CreateArgumentError;

impl CreateArgumentError {
    /// The human-readable description of this error.
    pub fn message(&self) -> (r: String)
        ensures
            r@ == "Argument error"@,
    {
        "Argument error".to_owned()
    }
}

/// Why a quote call failed: invalid caller input, or a transport failure.
/// A provider-reported error is not a failure of the call: it travels as
/// data inside the result sequence instead.
#[derive(Debug, Clone)]
pub enum ListError {
    /// The caller's parameters were invalid; no backend call was made.
    Argument(CreateArgumentError),
    /// The backend could not complete the call; passed on unchanged.
    Transport(TransportError),
}

/// Request parameters for one quote call: the currency-pair symbols to
/// look up, with an optional session context. Construction performs no
/// validation; the symbol list is checked at the point of use, so that
/// parameters stay a pure data holder reusable across retries.
#[derive(Debug, Clone)]
pub struct Params {
    /// The session handle to thread through to the backend, if any.
    pub context: Option<Context>,
    /// The currency-pair symbols to look up.
    pub symbols: Vec<String>,
    /// The comma-joined form of the symbol list, recorded during encoding.
    pub sym: Option<String>,
}

impl Params {
    /// Parameters for the given symbols, with no session context.
    pub fn new(symbols: Vec<String>) -> (r: Params)
        ensures
            r.symbols@ == symbols@,
            r.context is None,
            r.sym is None,
    {
        Params { context: None, symbols, sym: None }
    }
}

/// The symbols joined by a comma delimiter, as one specification string.
pub open spec fn joined_symbols(symbols: Seq<String>) -> Seq<char>
    decreases symbols.len(),
{
    if symbols.len() == 0 {
        Seq::empty()
    } else if symbols.len() == 1 {
        symbols[0]@
    } else {
        joined_symbols(symbols.drop_last()) + seq![','] + symbols.last()@
    }
}

/// Joins the symbols with a comma delimiter into a single string.
pub fn join_symbols(symbols: &Vec<String>) -> (r: String)
    ensures
        r@ == joined_symbols(symbols@),
{
    let mut joined = String::new();
    let mut i: usize = 0;
    while i < symbols.len()
        invariant
            i <= symbols@.len(),
            joined@ == joined_symbols(symbols@.take(i as int)),
        decreases symbols@.len() - i,
    {
        if i > 0 {
            joined.append(",");
        }
        joined.append(symbols[i].as_str());
        proof {
            reveal_strlit(",");
            assert(","@ =~= seq![',']);
            assert(symbols@.take(i + 1).drop_last() =~= symbols@.take(i as int));
            assert(symbols@.take(i + 1).last() == symbols@[i as int]);
        }
        i = i + 1;
    }
    proof {
        assert(symbols@.take(symbols@.len() as int) =~= symbols@);
    }
    joined
}

/// Builds the form body for one quote call in two steps that both stay:
/// generic encoding of the parameters first (which declares no fields of
/// its own), then the `sym` field is set to the comma-joined symbol list,
/// overriding whatever generic encoding may have produced for it. The
/// joined string is also recorded on the parameters as encoding leaves
/// them.
pub fn encoded_body(params: Params) -> (r: (Values, Params))
    ensures
        r.0@ == Map::<Seq<char>, Seq<char>>::empty().insert(
            "sym"@,
            joined_symbols(params.symbols@),
        ),
        r.1.symbols@ == params.symbols@,
        r.1.context == params.context,
        r.1.sym matches Some(s) && s@ == joined_symbols(params.symbols@),
{
    let symbols_str = join_symbols(&params.symbols);
    let mut body = Values::new();
    let mut params = append_to(&body, params);
    params.sym = Some(symbols_str.clone());
    body.set("sym", symbols_str);
    (body, params)
}

/// The tagging of returned quotes as records, in arrival order.
pub open spec fn wrapped(result: Seq<ForexPair>) -> Seq<Record> {
    result.map_values(|p: ForexPair| Record::ForexPair(p))
}

/// Adapts one backend outcome: a response envelope is decomposed into a
/// result sequence that takes ownership of its records and provider
/// error; a transport error is passed on unchanged, never substituted by
/// another kind.
pub fn adapt_response(outcome: Result<Response, TransportError>) -> (r: Result<Iter, ListError>)
    ensures
        match outcome {
            Ok(resp) => r matches Ok(it) && it.records() == wrapped(resp.quote_response.result@)
                && it.provider_error() == resp.quote_response.error,
            Err(e) => r matches Err(le) && le == ListError::Transport(e),
        },
{
    match outcome {
        Ok(resp) => {
            let mut result = resp.quote_response.result;
            let ghost orig = result@;
            let mut records: Vec<Record> = Vec::new();
            while result.len() > 0
                invariant
                    records@.len() + result@.len() == orig.len(),
                    records@ == wrapped(orig.take(records@.len() as int)),
                    result@ == orig.skip(records@.len() as int),
                decreases result@.len(),
            {
                let p = result.remove(0);
                records.push(Record::ForexPair(p));
                proof {
                    assert(records@ =~= wrapped(orig.take(records@.len() as int)));
                    assert(result@ =~= orig.skip(records@.len() as int));
                }
            }
            proof {
                assert(orig.take(orig.len() as int) =~= orig);
            }
            Ok(Iter::new(records, resp.quote_response.error))
        },
        Err(e) => Err(ListError::Transport(e)),
    }
}

/// The quote client: owns a backend, validates parameters, encodes the
/// request, performs exactly one backend call per invocation, and adapts
/// the provider's response into a result sequence. One backend instance
/// may back any number of clients and calls, since it holds no per-call
/// mutable state.
#[derive(Debug, Clone)]
pub struct Client<B: Backend> {
    backend: B,
}

impl Client<YFinBackend> {
    /// A client over the provider-facing backend.
    pub fn new() -> (r: Client<YFinBackend>) {
        Client { backend: YFinBackend::new() }
    }
}

impl<B: Backend> Client<B> {
    /// A client over the given backend.
    pub fn with_backend(backend: B) -> (r: Client<B>) {
        Client { backend }
    }

    /// Lists quotes for `params.symbols`. An empty symbol list fails at
    /// once with an argument error and no backend call; otherwise exactly
    /// one backend call is made, a transport failure is passed on
    /// unchanged, and a response envelope is adapted into a result
    /// sequence exactly as `adapt_response` states.
    pub fn list_p(&self, params: Params) -> (r: Result<Iter, ListError>)
        ensures
            params.symbols@.len() == 0 ==> r matches Err(ListError::Argument(_)),
            params.symbols@.len() > 0 ==> (r matches Ok(_) || r matches Err(
                ListError::Transport(_),
            )),
    {
        if params.symbols.len() == 0 {
            return Err(ListError::Argument(CreateArgumentError));
        }
        let (body, params) = encoded_body(params);
        let outcome = self.backend.call("/v7/finance/quote", &body, params.context);
        adapt_response(outcome)
    }
}

} // verus!
