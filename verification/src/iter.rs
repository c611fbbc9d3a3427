//! The result sequence a quote call yields: a single-pass container of typed
//! records, drained most-recently-inserted first, carried beside any error
//! the provider reported.

use crate::records::{ForexPair, Record, YfinError};
use vstd::prelude::*;

verus! {

/// The records and provider error one quote call yielded. Records are
/// removed from the end of the sequence, so they come out in reverse
/// insertion order; the provider error is read without consuming it.
#[derive(Debug, Clone)]
pub struct Iter {
    inner: Vec<Record>,
    error: Option<YfinError>,
}

/// The order a full drain yields: the record inserted last first, down to
/// the record inserted first.
pub open spec fn drain_order(records: Seq<Record>) -> Seq<Record>
    decreases records.len(),
{
    if records.len() == 0 {
        Seq::empty()
    } else {
        seq![records.last()] + drain_order(records.drop_last())
    }
}

/// Removing records from the end of the sequence, one at a time until none
/// is left, yields exactly the reverse of insertion order.
pub proof fn lemma_drain_order_reverses(records: Seq<Record>)
    ensures
        drain_order(records) == records.reverse(),
    decreases records.len(),
{
    if records.len() > 0 {
        lemma_drain_order_reverses(records.drop_last());
        assert(seq![records.last()] + records.drop_last().reverse() =~= records.reverse());
    } else {
        assert(drain_order(records) =~= records.reverse());
    }
}

impl Iter {
    /// The records not yet consumed, in insertion order.
    pub closed spec fn records(&self) -> Seq<Record> {
        self.inner@
    }

    /// The provider-reported error, if the response carried one.
    pub closed spec fn provider_error(&self) -> Option<YfinError> {
        self.error
    }

    /// Wraps the records and optional provider error of one response.
    pub fn new(inner: Vec<Record>, error: Option<YfinError>) -> (r: Iter)
        ensures
            r.records() == inner@,
            r.provider_error() == error,
    {
        Iter { inner, error }
    }

    /// Views the first-inserted record as a currency pair, without
    /// consuming it. Retrieval order (which starts from the last-inserted
    /// record) plays no part here.
    pub fn forex_pair(&self) -> (r: Option<&ForexPair>)
        ensures
            match r {
                Some(fp) => self.records().len() > 0 && self.records()[0] == Record::ForexPair(
                    *fp,
                ),
                None => self.records().len() == 0 || !(self.records()[0] is ForexPair),
            },
    {
        if self.inner.len() == 0 {
            None
        } else {
            match &self.inner[0] {
                Record::ForexPair(fp) => Some(fp),
            }
        }
    }

    /// Removes and returns the most recently inserted remaining record;
    /// yields nothing once the sequence is exhausted, and from then on
    /// forever. The provider error is untouched.
    pub fn next(&mut self) -> (r: Option<Record>)
        ensures
            old(self).records().len() == 0 ==> r is None && final(self).records()
                == old(self).records(),
            old(self).records().len() > 0 ==> r == Some(old(self).records().last())
                && final(self).records() == old(self).records().drop_last(),
            final(self).provider_error() == old(self).provider_error(),
    {
        self.inner.pop()
    }

    /// Reads the provider-reported error, if any. Reading neither consumes
    /// records nor the error: every call returns the same value.
    pub fn err(&self) -> (r: Option<&YfinError>)
        ensures
            match r {
                Some(e) => self.provider_error() matches Some(pe) && *e == pe,
                None => self.provider_error() is None,
            },
    {
        self.error.as_ref()
    }
}

} // verus!
