use vstd::prelude::*;

use crate::record::Record;

verus! {

broadcast use vstd::seq_lib::group_seq_properties;

/// The mathematical value of a record: its secret and its confirmation.
pub type Entry = (Seq<char>, Seq<char>);

/// The entries that a sequence of records holds, in order.
pub open spec fn entries_of(v: Seq<Record>) -> Seq<Entry> {
    v.map_values(|r: Record| r@)
}

/// Some entry of `s` has the secret `k`.
pub open spec fn has_secret(s: Seq<Entry>, k: Seq<char>) -> bool {
    exists|i: int| 0 <= i < s.len() && #[trigger] s[i].0 == k
}

/// `i` is the position of the earliest entry of `s` whose secret is `k`.
pub open spec fn is_first_match(s: Seq<Entry>, k: Seq<char>, i: int) -> bool {
    &&& 0 <= i < s.len()
    &&& s[i].0 == k
    &&& forall|j: int| 0 <= j < i ==> #[trigger] s[j].0 != k
}

/// Holds of the entries whose secret is not `k`.
pub open spec fn secret_differs(k: Seq<char>) -> spec_fn(Entry) -> bool {
    |e: Entry| e.0 != k
}

/// `s` with every entry whose secret is `k` taken out, the rest in order.
pub open spec fn without_secret(s: Seq<Entry>, k: Seq<char>) -> Seq<Entry> {
    s.filter(secret_differs(k))
}

/// Holds of the entries whose secret is `k`.
pub open spec fn secret_equals(k: Seq<char>) -> spec_fn(Entry) -> bool {
    |e: Entry| e.0 == k
}

/// The entries of `s` whose secret is `k`, in order.
pub open spec fn with_secret(s: Seq<Entry>, k: Seq<char>) -> Seq<Entry> {
    s.filter(secret_equals(k))
}

/// Removing the entries with secret `k` shortens `s` by exactly the number of
/// such entries, and leaves `s` as it was when there are none.
pub proof fn lemma_without_secret(s: Seq<Entry>, k: Seq<char>)
    ensures
        without_secret(s, k).len() + with_secret(s, k).len() == s.len(),
        !has_secret(s, k) ==> without_secret(s, k) == s,
        has_secret(s, k) ==> with_secret(s, k).len() > 0,
        !has_secret(without_secret(s, k), k),
    decreases s.len(),
{
    reveal(Seq::filter);
    if s.len() > 0 {
        let init = s.drop_last();
        lemma_without_secret(init, k);
        assert(init.push(s.last()) == s);
        if has_secret(s, k) && s.last().0 != k {
            let i = choose|i: int| 0 <= i < s.len() && #[trigger] s[i].0 == k;
            assert(init[i].0 == k);
        }
        if !has_secret(s, k) {
            assert(!has_secret(init, k)) by {
                if has_secret(init, k) {
                    let i = choose|i: int| 0 <= i < init.len() && #[trigger] init[i].0 == k;
                    assert(s[i].0 == k);
                }
            }
            assert(s.last().0 != k) by {
                assert(s[s.len() - 1].0 != k);
            }
        }
    }
    let w = without_secret(s, k);
    assert forall|i: int| 0 <= i < w.len() implies #[trigger] w[i].0 != k by {
        s.lemma_filter_pred(secret_differs(k), i);
    }
}

/// The whole store: every record, in the order in which it was inserted.
/// Secrets need not be unique.
pub struct Collection {
    records: Vec<Record>,
}

impl View for Collection {
    type V = Seq<Entry>;

    closed spec fn view(&self) -> Seq<Entry> {
        entries_of(self.records@)
    }
}

impl Collection {
    /// A collection with no records.
    pub fn new() -> (c: Collection)
        ensures
            c@ == Seq::<Entry>::empty(),
    {
        let c = Collection { records: Vec::new() };
        assert(c@ =~= Seq::<Entry>::empty());
        c
    }

    /// The collection that holds `records`, in their order.
    pub fn from_records(records: Vec<Record>) -> (c: Collection)
        ensures
            c@ == entries_of(records@),
    {
        Collection { records }
    }

    pub fn len(&self) -> (n: usize)
        ensures
            n == self@.len(),
    {
        self.records.len()
    }

    /// Appends `record` after every record already present. Nothing is
    /// checked for duplicates.
    pub fn insert(&mut self, record: Record)
        ensures
            final(self)@ == old(self)@.push(record@),
    {
        self.records.push(record);
        assert(self@ =~= old(self)@.push(record@));
    }

    /// The earliest record whose secret is `key`, or `None` when no record has
    /// that secret.
    pub fn find_by_secret(&self, key: &str) -> (r: Option<Record>)
        ensures
            match r {
                None => !has_secret(self@, key@),
                Some(found) => exists|i: int| is_first_match(self@, key@, i) && found@ == self@[i],
            },
    {
        let k = key.to_owned();
        let mut i: usize = 0;
        while i < self.records.len()
            invariant
                i <= self.records@.len(),
                k@ == key@,
                self@.len() == self.records@.len(),
                forall|j: int| 0 <= j < i ==> #[trigger] self@[j].0 != key@,
            decreases self.records@.len() - i,
        {
            if self.records[i].secret == k {
                let found = self.records[i].duplicate();
                assert(is_first_match(self@, key@, i as int));
                return Some(found);
            }
            i += 1;
        }
        None
    }

    /// Removes every record whose secret is `key`, keeps the others in order,
    /// and returns how many were removed.
    pub fn delete_by_secret(&mut self, key: &str) -> (removed: usize)
        ensures
            final(self)@ == without_secret(old(self)@, key@),
            removed == with_secret(old(self)@, key@).len(),
            removed as int == old(self)@.len() - final(self)@.len(),
            !has_secret(final(self)@, key@),
            removed > 0 <==> has_secret(old(self)@, key@),
    {
        let k = key.to_owned();
        let ghost s = self@;
        let mut kept: Vec<Record> = Vec::new();
        let mut i: usize = 0;
        assert(without_secret(s.subrange(0, 0), key@) =~= Seq::<Entry>::empty()) by {
            reveal(Seq::filter);
        }
        assert(entries_of(kept@) =~= Seq::<Entry>::empty());
        while i < self.records.len()
            invariant
                i <= self.records@.len(),
                k@ == key@,
                s == self@,
                s.len() == self.records@.len(),
                entries_of(kept@) == without_secret(s.subrange(0, i as int), key@),
            decreases self.records@.len() - i,
        {
            let ghost before = kept@;
            if !(self.records[i].secret == k) {
                kept.push(self.records[i].duplicate());
                assert(entries_of(kept@) =~= entries_of(before).push(s[i as int]));
            }
            proof {
                let p = secret_differs(key@);
                assert(s.subrange(0, i + 1) =~= s.subrange(0, i as int).push(s[i as int]));
                s.subrange(0, i as int).lemma_filter_push(s[i as int], p);
            }
            i += 1;
        }
        assert(s.subrange(0, s.len() as int) =~= s);
        proof {
            lemma_without_secret(s, key@);
        }
        let removed = self.records.len() - kept.len();
        self.records = kept;
        removed
    }

    /// Every record, in order; the collection itself is left as it is.
    pub fn list_all(&self) -> (r: Vec<Record>)
        ensures
            entries_of(r@) == self@,
    {
        let mut out: Vec<Record> = Vec::new();
        let mut i: usize = 0;
        while i < self.records.len()
            invariant
                i <= self.records@.len(),
                entries_of(out@) == self@.subrange(0, i as int),
            decreases self.records@.len() - i,
        {
            let ghost before = out@;
            out.push(self.records[i].duplicate());
            assert(entries_of(out@) =~= entries_of(before).push(self@[i as int]));
            assert(self@.subrange(0, i + 1) =~= self@.subrange(0, i as int).push(self@[i as int]));
            i += 1;
        }
        assert(self@.subrange(0, self@.len() as int) =~= self@);
        out
    }
}

} // verus!
