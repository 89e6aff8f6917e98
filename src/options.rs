//! Query options of a forecast request.

use vstd::prelude::*;

verus! {

/// The keys of a sequence of options.
pub open spec fn keys_unique(entries: Seq<(Seq<char>, Seq<char>)>) -> bool {
    forall|i: int, j: int|
        0 <= i < j < entries.len() ==> #[trigger] entries[i].0 != #[trigger] entries[j].0
}

/// A set of query options: pre-formatted values under unique keys, kept in
/// the order in which their keys were first inserted.
///
/// The URI built from them lists the options in that order, so the same
/// options always give the same bytes.
pub struct QueryOptions {
    entries: Vec<(String, String)>,
}

impl View for QueryOptions {
    type V = Seq<(Seq<char>, Seq<char>)>;

    closed spec fn view(&self) -> Seq<(Seq<char>, Seq<char>)> {
        self.entries@.map_values(|e: (String, String)| (e.0@, e.1@))
    }
}

impl QueryOptions {
    /// No two options share a key.
    pub open spec fn wf(&self) -> bool {
        keys_unique(self@)
    }

    /// An empty set of options.
    pub fn new() -> (r: QueryOptions)
        ensures
            r.wf(),
            r@ == Seq::<(Seq<char>, Seq<char>)>::empty(),
    {
        let r = QueryOptions { entries: Vec::new() };
        assert(r@ =~= Seq::<(Seq<char>, Seq<char>)>::empty());
        r
    }

    /// The number of options.
    pub fn len(&self) -> (r: usize)
        ensures
            r == self@.len(),
    {
        self.entries.len()
    }

    /// Whether there are no options.
    pub fn is_empty(&self) -> (r: bool)
        ensures
            r == (self@.len() == 0),
    {
        self.entries.len() == 0
    }

    /// The key and value of the option at `i`.
    pub fn entry(&self, i: usize) -> (r: (&str, &str))
        requires
            i < self@.len(),
        ensures
            r.0@ == self@[i as int].0,
            r.1@ == self@[i as int].1,
    {
        let e = &self.entries[i];
        (e.0.as_str(), e.1.as_str())
    }

    /// Sets the option `key` to `value`: in place where `key` is already
    /// present, else as a new last option.
    pub fn insert(&mut self, key: &str, value: String)
        requires
            old(self).wf(),
        ensures
            final(self).wf(),
            forall|i: int| 0 <= i < old(self)@.len() && #[trigger] old(self)@[i].0 == key@
                ==> final(self)@ == old(self)@.update(i, (key@, value@)),
            (forall|i: int| 0 <= i < old(self)@.len() ==> #[trigger] old(self)@[i].0 != key@)
                ==> final(self)@ == old(self)@.push((key@, value@)),
    {
        let k = String::from_str(key);
        let n = self.entries.len();
        let mut i: usize = 0;
        while i < n
            invariant
                n == self.entries@.len(),
                i <= n,
                self == old(self),
                old(self).wf(),
                k@ == key@,
                forall|j: int| 0 <= j < i ==> #[trigger] self@[j].0 != key@,
            decreases n - i,
        {
            assert(self@[i as int] == (self.entries@[i as int].0@, self.entries@[i as int].1@));
            if self.entries[i].0 == k {
                assert(old(self)@[i as int].0 == key@);
                self.entries.set(i, (k, value));
                assert(self@ =~= old(self)@.update(i as int, (key@, value@)));
                assert(forall|j: int| 0 <= j < old(self)@.len() && #[trigger] old(self)@[j].0 == key@ ==> j == i);
                return;
            }
            i = i + 1;
        }
        self.entries.push((k, value));
        assert(self@ =~= old(self)@.push((key@, value@)));
    }
}

} // verus!
