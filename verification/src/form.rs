//! Form-encoded request bodies: named string fields with last-set-wins
//! semantics, viewed in specifications as a map from field name to value.

use vstd::prelude::*;

verus! {

/// A form-encoded request body: an ordered list of (field name, value)
/// entries. Its view is the map each name denotes, where the entry set
/// most recently for a name wins.
pub struct Values {
    entries: Vec<(String, String)>,
}

/// The map denoted by a list of form entries: later entries shadow earlier
/// ones for the same name.
pub open spec fn entries_map(entries: Seq<(String, String)>) -> Map<Seq<char>, Seq<char>>
    decreases entries.len(),
{
    if entries.len() == 0 {
        Map::empty()
    } else {
        entries_map(entries.drop_last()).insert(entries.last().0@, entries.last().1@)
    }
}

/// The value the entry list associates with `name`: the last entry for
/// `name` wins, absent if no entry carries that name.
pub open spec fn entries_lookup(entries: Seq<(String, String)>, name: Seq<char>) -> Option<
    Seq<char>,
>
    decreases entries.len(),
{
    if entries.len() == 0 {
        None
    } else if entries.last().0@ == name {
        Some(entries.last().1@)
    } else {
        entries_lookup(entries.drop_last(), name)
    }
}

/// Looking an entry list up at one name agrees with the map the list denotes.
pub proof fn lemma_entries_lookup_matches_map(entries: Seq<(String, String)>, name: Seq<char>)
    ensures
        entries_map(entries).contains_key(name) <==> entries_lookup(entries, name) is Some,
        entries_lookup(entries, name) matches Some(v) ==> entries_map(entries)[name] == v,
    decreases entries.len(),
{
    if entries.len() > 0 {
        lemma_entries_lookup_matches_map(entries.drop_last(), name);
    }
}

impl View for Values {
    type V = Map<Seq<char>, Seq<char>>;

    closed spec fn view(&self) -> Map<Seq<char>, Seq<char>> {
        entries_map(self.entries@)
    }
}

impl Values {
    /// A fresh body with no fields set.
    pub fn new() -> (r: Values)
        ensures
            r@ == Map::<Seq<char>, Seq<char>>::empty(),
    {
        Values { entries: Vec::new() }
    }

    /// Sets field `name` to `value`, overwriting any value set earlier.
    pub fn set(&mut self, name: &str, value: String)
        ensures
            final(self)@ == old(self)@.insert(name@, value@),
    {
        self.entries.push((name.to_owned(), value));
        proof {
            assert(self.entries@.drop_last() =~= old(self).entries@);
        }
    }

    /// Looks up the value currently set for field `name`.
    pub fn get(&self, name: &str) -> (r: Option<&String>)
        ensures
            match r {
                Some(v) => self@.contains_key(name@) && v@ == self@[name@],
                None => !self@.contains_key(name@),
            },
    {
        proof {
            assert(self.entries@.take(self.entries@.len() as int) =~= self.entries@);
        }
        let key: String = name.to_owned();
        let mut i: usize = self.entries.len();
        while i > 0
            invariant
                i <= self.entries@.len(),
                key@ == name@,
                entries_lookup(self.entries@.take(i as int), name@) == entries_lookup(
                    self.entries@,
                    name@,
                ),
            decreases i,
        {
            i = i - 1;
            proof {
                assert(self.entries@.take(i + 1).drop_last() =~= self.entries@.take(i as int));
                assert(self.entries@.take(i + 1).last() == self.entries@[i as int]);
            }
            if self.entries[i].0 == key {
                proof {
                    lemma_entries_lookup_matches_map(self.entries@, name@);
                }
                return Some(&self.entries[i].1);
            }
        }
        proof {
            lemma_entries_lookup_matches_map(self.entries@, name@);
            assert(self.entries@.take(0).len() == 0);
        }
        None
    }
}

impl Default for Values {
    /// The default body is empty, as a fresh one is.
    fn default() -> (r: Values)
        ensures
            r@ == Map::<Seq<char>, Seq<char>>::empty(),
    {
        Values::new()
    }
}

/// Merges request parameters into a form body. No parameter field is
/// declared for generic encoding (the client sets the symbol field itself
/// afterwards), so the body is left untouched and the parameters are handed
/// back as given.
pub fn append_to<T>(_values: &Values, params: T) -> (r: T)
    ensures
        r == params,
{
    params
}

} // verus!
