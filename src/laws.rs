use vstd::prelude::*;

use crate::record::Record;
use crate::load::{loaded, ReadOutcome};
use crate::store::{
    entries_of, has_secret, is_first_match, lemma_without_secret, secret_equals, with_secret, without_secret,
    Collection, Entry,
};

verus! {

broadcast use vstd::seq_lib::group_seq_properties;

/// After appending an entry whose secret no earlier entry has, a lookup by that
/// secret finds exactly the appended entry.
pub proof fn lemma_insert_then_find(s: Seq<Entry>, e: Entry)
    requires
        !has_secret(s, e.0),
    ensures
        is_first_match(s.push(e), e.0, s.len() as int),
        forall|i: int| is_first_match(s.push(e), e.0, i) ==> i == s.len() && s.push(e)[i] == e,
{
    let t = s.push(e);
    assert forall|j: int| 0 <= j < s.len() implies #[trigger] t[j].0 != e.0 by {
        assert(t[j] == s[j]);
        if s[j].0 == e.0 {
            assert(has_secret(s, e.0));
        }
    }
    assert(t[s.len() as int] == e);
}

/// Inserting `a`, `b` and then `c` leaves them after the existing entries, in
/// that order.
pub proof fn lemma_inserts_keep_order(s: Seq<Entry>, a: Entry, b: Entry, c: Entry)
    ensures
        s.push(a).push(b).push(c) == s + seq![a, b, c],
        Seq::<Entry>::empty().push(a).push(b).push(c) == seq![a, b, c],
{
    assert(s.push(a).push(b).push(c) =~= s + seq![a, b, c]);
    assert(Seq::<Entry>::empty().push(a).push(b).push(c) =~= seq![a, b, c]);
}

/// Deleting by a secret removes every entry with that secret, not only the
/// first: none is left, and the number removed is the number there were.
pub proof fn lemma_delete_removes_all(s: Seq<Entry>, k: Seq<char>)
    ensures
        !has_secret(without_secret(s, k), k),
        s.len() - without_secret(s, k).len() == with_secret(s, k).len(),
        forall|i: int| 0 <= i < with_secret(s, k).len() ==> #[trigger] with_secret(s, k)[i].0 == k,
{
    lemma_without_secret(s, k);
    assert forall|i: int| 0 <= i < with_secret(s, k).len() implies #[trigger] with_secret(
        s,
        k,
    )[i].0 == k by {
        s.lemma_filter_pred(secret_equals(k), i);
    }
}

/// Deleting a secret that no entry has removes nothing and changes nothing.
pub proof fn lemma_delete_absent_is_noop(s: Seq<Entry>, k: Seq<char>)
    requires
        !has_secret(s, k),
    ensures
        without_secret(s, k) == s,
        with_secret(s, k).len() == 0,
{
    lemma_without_secret(s, k);
}

/// A missing backing file loads as an empty collection, in which no secret is
/// found.
pub proof fn lemma_find_on_missing_file(k: Seq<char>)
    ensures
        loaded(ReadOutcome::Missing) == Some(Seq::<Entry>::empty()),
        !has_secret(Seq::<Entry>::empty(), k),
{
}

/// Two listings of a collection that has not changed in between are equal.
pub proof fn lemma_list_all_stable(c: Collection, first: Seq<Record>, second: Seq<Record>)
    requires
        entries_of(first) == c@,
        entries_of(second) == c@,
    ensures
        entries_of(first) == entries_of(second),
{
}

/// A malformed backing file loads as an empty collection, not as a failure.
pub proof fn lemma_malformed_loads_empty()
    ensures
        loaded(ReadOutcome::Malformed) == Some(Seq::<Entry>::empty()),
{
}

} // verus!
