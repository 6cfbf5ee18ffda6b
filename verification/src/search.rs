//! The first element of a sequence that has a property, and lists of named entries.
use vstd::prelude::*;

verus! {

/// The index of the first element of `s` that satisfies `p`.
pub open spec fn first_index<T>(s: Seq<T>, p: spec_fn(T) -> bool) -> Option<int>
    decreases s.len(),
{
    if s.len() == 0 {
        None
    } else if p(s[0]) {
        Some(0)
    } else {
        match first_index(s.drop_first(), p) {
            Some(i) => Some(i + 1),
            None => None,
        }
    }
}

/// Whether `i` is the index of the first element of `s` that satisfies `p`.
pub open spec fn is_first<T>(s: Seq<T>, p: spec_fn(T) -> bool, i: int) -> bool {
    &&& 0 <= i < s.len()
    &&& p(s[i])
    &&& forall|j: int| 0 <= j < i ==> !p(#[trigger] s[j])
}

/// `first_index` gives the first index at which `p` holds, and none exactly when
/// `p` holds nowhere.
pub proof fn lemma_first_index<T>(s: Seq<T>, p: spec_fn(T) -> bool)
    ensures
        match first_index(s, p) {
            Some(i) => is_first(s, p, i),
            None => forall|j: int| 0 <= j < s.len() ==> !p(#[trigger] s[j]),
        },
    decreases s.len(),
{
    if s.len() > 0 && !p(s[0]) {
        let rest = s.drop_first();
        lemma_first_index(rest, p);
        assert(forall|j: int| 0 < j < s.len() ==> s[j] == rest[j - 1]);
    }
}

/// The first index at which `p` holds is what `first_index` gives.
pub proof fn lemma_first_index_found<T>(s: Seq<T>, p: spec_fn(T) -> bool, i: int)
    requires
        is_first(s, p, i),
    ensures
        first_index(s, p) == Some(i),
{
    lemma_first_index(s, p);
}

/// Where `p` holds nowhere, `first_index` gives no index.
pub proof fn lemma_first_index_absent<T>(s: Seq<T>, p: spec_fn(T) -> bool)
    requires
        forall|j: int| 0 <= j < s.len() ==> !p(#[trigger] s[j]),
    ensures
        first_index(s, p) is None,
{
    lemma_first_index(s, p);
}

/// The property of an entry to stand under the name `key`.
pub open spec fn named<V>(key: Seq<char>) -> spec_fn((Seq<char>, V)) -> bool {
    |entry: (Seq<char>, V)| entry.0 == key
}

/// What the first entry under `key` holds.
pub open spec fn entry_under<V>(entries: Seq<(Seq<char>, V)>, key: Seq<char>) -> Option<V> {
    match first_index(entries, named(key)) {
        Some(i) => Some(entries[i].1),
        None => None,
    }
}

/// `entries` with `value` under `key`: in the place of the first entry under that
/// name, and at the end where there is none.
pub open spec fn with_entry<V>(entries: Seq<(Seq<char>, V)>, key: Seq<char>, value: V) -> Seq<
    (Seq<char>, V),
> {
    match first_index(entries, named(key)) {
        Some(i) => entries.update(i, (key, value)),
        None => entries.push((key, value)),
    }
}

/// The names of `entries`, in their order.
pub open spec fn names_of<V>(entries: Seq<(Seq<char>, V)>) -> Seq<Seq<char>> {
    Seq::new(entries.len(), |i: int| entries[i].0)
}

/// Whether no name stands over two of the entries.
pub open spec fn distinct_names<V>(entries: Seq<(Seq<char>, V)>) -> bool {
    forall|i: int, j: int|
        0 <= i < j < entries.len() ==> (#[trigger] entries[i]).0 != (#[trigger] entries[j]).0
}

/// Putting a value under a name keeps the names distinct, and leaves the value to
/// be found under that name and every other name as it was.
pub proof fn lemma_with_entry<V>(entries: Seq<(Seq<char>, V)>, key: Seq<char>, value: V)
    requires
        distinct_names(entries),
    ensures
        distinct_names(with_entry(entries, key, value)),
        entry_under(with_entry(entries, key, value), key) == Some(value),
        forall|other: Seq<char>|
            other != key ==> #[trigger] entry_under(with_entry(entries, key, value), other)
                == entry_under(entries, other),
{
    let after = with_entry(entries, key, value);
    lemma_first_index(entries, named(key));
    match first_index(entries, named(key)) {
        Some(i) => {
            lemma_first_index_found(after, named(key), i);
        },
        None => {
            lemma_first_index_found(after, named(key), entries.len() as int);
        },
    }
    assert forall|other: Seq<char>| other != key implies #[trigger] entry_under(after, other)
        == entry_under(entries, other) by {
        lemma_first_index(entries, named::<V>(other));
        match first_index(entries, named::<V>(other)) {
            Some(k) => {
                lemma_first_index_found(after, named(other), k);
            },
            None => {
                lemma_first_index_absent(after, named::<V>(other));
            },
        }
    }
}

/// The first element with a property stays the first when an element is added at
/// the end; the added element is the first where there was none and it has the
/// property.
pub proof fn lemma_first_index_push<T>(s: Seq<T>, p: spec_fn(T) -> bool, last: T)
    ensures
        first_index(s.push(last), p) == match first_index(s, p) {
            Some(i) => Some(i),
            None => if p(last) {
                Some(s.len() as int)
            } else {
                None
            },
        },
{
    lemma_first_index(s, p);
    match first_index(s, p) {
        Some(i) => {
            lemma_first_index_found(s.push(last), p, i);
        },
        None => {
            if p(last) {
                lemma_first_index_found(s.push(last), p, s.len() as int);
            } else {
                lemma_first_index_absent(s.push(last), p);
            }
        },
    }
}

} // verus!
