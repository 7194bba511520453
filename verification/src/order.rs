//! Stable sorting by a key.
use vstd::prelude::*;

verus! {

/// The keys of `s` ascend.
pub open spec fn sorted_by<T>(s: Seq<T>, key: spec_fn(T) -> int) -> bool {
    forall|i: int, j: int| 0 <= i <= j < s.len() ==> key(s[i]) <= key(s[j])
}

/// The items of `s` with the key `k`, in their order.
pub open spec fn with_key<T>(s: Seq<T>, key: spec_fn(T) -> int, k: int) -> Seq<T>
    decreases s.len(),
{
    if s.len() == 0 {
        Seq::empty()
    } else if key(s.last()) == k {
        with_key(s.drop_last(), key, k).push(s.last())
    } else {
        with_key(s.drop_last(), key, k)
    }
}

/// `sorted` holds the items of `s` in the order of their keys, those of one
/// key in the order they have in `s`.
pub open spec fn stable_sort_of<T>(sorted: Seq<T>, s: Seq<T>, key: spec_fn(T) -> int) -> bool {
    &&& sorted_by(sorted, key)
    &&& forall|k: int| #[trigger] with_key(sorted, key, k) == with_key(s, key, k)
}

/// The key that a pair of a key and an item carries.
pub open spec fn first_of<T>() -> spec_fn((u16, T)) -> int {
    |pair: (u16, T)| pair.0 as int
}

/// The items of the pairs `pairs`.
pub open spec fn items_of<T>(pairs: Seq<(u16, T)>) -> Seq<T> {
    Seq::new(pairs.len(), |i: int| pairs[i].1)
}

/// Every pair of `pairs` carries the key of its item.
pub open spec fn keyed_by<T>(pairs: Seq<(u16, T)>, key: spec_fn(T) -> int) -> bool {
    forall|i: int| 0 <= i < pairs.len() ==> (#[trigger] pairs[i]).0 == key(pairs[i].1)
}

/// Sorts the pairs by the key that each carries; pairs of one key keep their order.
///
/// Trusted: `slice::sort_by_key` of std sorts by the key that the closure
/// gives, and is documented as stable.
#[verifier::external_body]
fn sort_by_first<T>(pairs: &mut Vec<(u16, T)>)
    ensures
        stable_sort_of(final(pairs)@, old(pairs)@, first_of::<T>()),
{
    pairs.sort_by_key(|pair| pair.0);
}

/// What is among the items with the key `k` is an item of `s` with that key.
proof fn lemma_with_key_members<T>(s: Seq<T>, key: spec_fn(T) -> int, k: int, j: int)
    requires
        0 <= j < with_key(s, key, k).len(),
    ensures
        exists|i: int| 0 <= i < s.len() && #[trigger] s[i] == with_key(s, key, k)[j] && key(s[i]) == k,
    decreases s.len(),
{
    if s.len() > 0 {
        let rest = with_key(s.drop_last(), key, k);
        if key(s.last()) == k && j == rest.len() {
            assert(s[s.len() - 1] == with_key(s, key, k)[j]);
        } else {
            lemma_with_key_members(s.drop_last(), key, k, j);
            let i = choose|i: int|
                0 <= i < s.drop_last().len() && #[trigger] s.drop_last()[i] == rest[j] && key(
                    s.drop_last()[i],
                ) == k;
            assert(s[i] == with_key(s, key, k)[j]);
        }
    }
}

/// An item of `s` with the key `k` is among the items with the key `k`.
proof fn lemma_with_key_holds<T>(s: Seq<T>, key: spec_fn(T) -> int, k: int, i: int)
    requires
        0 <= i < s.len(),
        key(s[i]) == k,
    ensures
        exists|j: int|
            0 <= j < with_key(s, key, k).len() && #[trigger] with_key(s, key, k)[j] == s[i],
    decreases s.len(),
{
    let rest = with_key(s.drop_last(), key, k);
    if i == s.len() - 1 {
        assert(with_key(s, key, k)[rest.len() as int] == s[i]);
    } else {
        lemma_with_key_holds(s.drop_last(), key, k, i);
        let j = choose|j: int| 0 <= j < rest.len() && #[trigger] rest[j] == s.drop_last()[i];
        assert(with_key(s, key, k)[j] == s[i]);
    }
}

/// Where every pair carries the key of its item, the items of the pairs with
/// the key `k` are the items with the key `k`.
proof fn lemma_items_with_key<T>(pairs: Seq<(u16, T)>, key: spec_fn(T) -> int, k: int)
    requires
        keyed_by(pairs, key),
    ensures
        items_of(with_key(pairs, first_of::<T>(), k)) == with_key(items_of(pairs), key, k),
    decreases pairs.len(),
{
    if pairs.len() == 0 {
        assert(items_of(with_key(pairs, first_of::<T>(), k)) =~= with_key(
            items_of(pairs),
            key,
            k,
        ));
    } else {
        let front = pairs.drop_last();
        lemma_items_with_key(front, key, k);
        assert(items_of(pairs).drop_last() =~= items_of(front));
        assert(items_of(pairs).last() == pairs.last().1);
        assert(items_of(with_key(pairs, first_of::<T>(), k)) =~= with_key(
            items_of(pairs),
            key,
            k,
        ));
    }
}

/// Sorting pairs by the key that each carries sorts their items by their
/// key, where every pair carries the key of its item.
proof fn lemma_items_sorted<T>(sorted: Seq<(u16, T)>, pairs: Seq<(u16, T)>, key: spec_fn(T) -> int)
    requires
        keyed_by(pairs, key),
        stable_sort_of(sorted, pairs, first_of::<T>()),
    ensures
        keyed_by(sorted, key),
        stable_sort_of(items_of(sorted), items_of(pairs), key),
{
    assert forall|i: int| 0 <= i < sorted.len() implies (#[trigger] sorted[i]).0 == key(
        sorted[i].1,
    ) by {
        let k = sorted[i].0 as int;
        lemma_with_key_holds(sorted, first_of::<T>(), k, i);
        let j = choose|j: int|
            0 <= j < with_key(sorted, first_of::<T>(), k).len() && #[trigger] with_key(
                sorted,
                first_of::<T>(),
                k,
            )[j] == sorted[i];
        assert(with_key(sorted, first_of::<T>(), k) == with_key(pairs, first_of::<T>(), k));
        lemma_with_key_members(pairs, first_of::<T>(), k, j);
    }
    assert forall|k: int| #[trigger]
        with_key(items_of(sorted), key, k) == with_key(items_of(pairs), key, k) by {
        lemma_items_with_key(sorted, key, k);
        lemma_items_with_key(pairs, key, k);
        assert(with_key(sorted, first_of::<T>(), k) == with_key(pairs, first_of::<T>(), k));
    }
    assert forall|i: int, j: int| 0 <= i <= j < items_of(sorted).len() implies key(
        items_of(sorted)[i],
    ) <= key(items_of(sorted)[j]) by {
        assert(first_of::<T>()(sorted[i]) <= first_of::<T>()(sorted[j]));
    }
}

/// What was sorted holds the items that it held before, and no others.
pub proof fn lemma_sort_same_items<T>(sorted: Seq<T>, s: Seq<T>, key: spec_fn(T) -> int)
    requires
        stable_sort_of(sorted, s, key),
    ensures
        forall|x: T| #[trigger] sorted.contains(x) <==> s.contains(x),
{
    assert forall|x: T| #[trigger] sorted.contains(x) <==> s.contains(x) by {
        let k = key(x);
        assert(with_key(sorted, key, k) == with_key(s, key, k));
        if s.contains(x) {
            let i = choose|i: int| 0 <= i < s.len() && s[i] == x;
            lemma_with_key_holds(s, key, k, i);
            let j = choose|j: int|
                0 <= j < with_key(s, key, k).len() && #[trigger] with_key(s, key, k)[j] == s[i];
            lemma_with_key_members(sorted, key, k, j);
            let m = choose|m: int|
                0 <= m < sorted.len() && #[trigger] sorted[m] == with_key(sorted, key, k)[j]
                    && key(sorted[m]) == k;
            assert(sorted[m] == x);
        }
        if sorted.contains(x) {
            let m = choose|m: int| 0 <= m < sorted.len() && sorted[m] == x;
            lemma_with_key_holds(sorted, key, k, m);
            let j = choose|j: int|
                0 <= j < with_key(sorted, key, k).len() && #[trigger] with_key(sorted, key, k)[j]
                    == sorted[m];
            lemma_with_key_members(s, key, k, j);
            let i = choose|i: int|
                0 <= i < s.len() && #[trigger] s[i] == with_key(s, key, k)[j] && key(s[i]) == k;
            assert(s[i] == x);
        }
    }
}

/// The items with the key `k` of what stands for the items of `s`: what
/// stands for the items of `s` with that key, where an item has the key of
/// what stands for it.
proof fn lemma_with_key_through<A, B>(
    s: Seq<A>,
    f: spec_fn(A) -> B,
    through: spec_fn(A) -> int,
    key: spec_fn(B) -> int,
    k: int,
)
    requires
        forall|a: A| #[trigger] through(a) == key(f(a)),
    ensures
        with_key(s.map_values(f), key, k) == with_key(s, through, k).map_values(f),
    decreases s.len(),
{
    if s.len() == 0 {
        assert(with_key(s.map_values(f), key, k) =~= with_key(s, through, k).map_values(f));
    } else {
        lemma_with_key_through(s.drop_last(), f, through, key, k);
        assert(s.map_values(f).drop_last() =~= s.drop_last().map_values(f));
        assert(s.map_values(f).last() == f(s.last()));
        assert(through(s.last()) == key(f(s.last())));
        assert(with_key(s.map_values(f), key, k) =~= with_key(s, through, k).map_values(f));
    }
}

/// What is sorted by the key of what stands for each item is sorted when
/// each item is replaced by what stands for it.
pub proof fn lemma_sort_through<A, B>(
    sorted: Seq<A>,
    s: Seq<A>,
    f: spec_fn(A) -> B,
    through: spec_fn(A) -> int,
    key: spec_fn(B) -> int,
)
    requires
        forall|a: A| #[trigger] through(a) == key(f(a)),
        stable_sort_of(sorted, s, through),
    ensures
        stable_sort_of(sorted.map_values(f), s.map_values(f), key),
{
    assert forall|k: int| #[trigger]
        with_key(sorted.map_values(f), key, k) == with_key(s.map_values(f), key, k) by {
        lemma_with_key_through(sorted, f, through, key, k);
        lemma_with_key_through(s, f, through, key, k);
        assert(with_key(sorted, through, k) == with_key(s, through, k));
    }
    assert forall|i: int, j: int| 0 <= i <= j < sorted.map_values(f).len() implies key(
        sorted.map_values(f)[i],
    ) <= key(sorted.map_values(f)[j]) by {
        assert(through(sorted[i]) <= through(sorted[j]));
    }
}

/// Two sorted sequences that hold the same items under every key, in the
/// same order, are the same.
pub proof fn lemma_sorted_alike<T>(a: Seq<T>, b: Seq<T>, key: spec_fn(T) -> int)
    requires
        sorted_by(a, key),
        sorted_by(b, key),
        forall|k: int| #[trigger] with_key(a, key, k) == with_key(b, key, k),
    ensures
        a == b,
    decreases a.len(),
{
    if a.len() == 0 {
        if b.len() > 0 {
            let k = key(b.last());
            assert(with_key(b, key, k).len() > 0);
            assert(with_key(a, key, k) == with_key(b, key, k));
        }
        assert(a =~= b);
    } else {
        let k = key(a.last());
        assert(with_key(a, key, k).last() == a.last());
        assert(with_key(a, key, k) == with_key(b, key, k));
        if b.len() == 0 {
            assert(with_key(b, key, k).len() == 0);
        }
        let kb = key(b.last());
        assert(with_key(b, key, kb).last() == b.last());
        assert(with_key(a, key, kb) == with_key(b, key, kb));
        lemma_with_key_members(b, key, k, with_key(b, key, k).len() - 1);
        lemma_with_key_members(a, key, kb, with_key(a, key, kb).len() - 1);
        assert(k == kb);
        assert(a.last() == b.last());
        assert forall|j: int| #[trigger]
            with_key(a.drop_last(), key, j) == with_key(b.drop_last(), key, j) by {
            assert(with_key(a, key, j) == with_key(b, key, j));
            if j == k {
                assert(with_key(a.drop_last(), key, j) =~= with_key(a, key, j).drop_last());
                assert(with_key(b.drop_last(), key, j) =~= with_key(b, key, j).drop_last());
            }
        }
        lemma_sorted_alike(a.drop_last(), b.drop_last(), key);
        assert(a =~= a.drop_last().push(a.last()));
        assert(b =~= b.drop_last().push(b.last()));
    }
}

/// There is one way only to sort a sequence by a key and keep the order of
/// the items of one key.
pub proof fn lemma_stable_sort_is_one<T>(a: Seq<T>, b: Seq<T>, s: Seq<T>, key: spec_fn(T) -> int)
    requires
        stable_sort_of(a, s, key),
        stable_sort_of(b, s, key),
    ensures
        a == b,
{
    assert forall|k: int| #[trigger] with_key(a, key, k) == with_key(b, key, k) by {
        assert(with_key(a, key, k) == with_key(s, key, k));
        assert(with_key(b, key, k) == with_key(s, key, k));
    }
    lemma_sorted_alike(a, b, key);
}

/// Sorting what is sorted changes nothing.
pub proof fn lemma_sort_again<T>(again: Seq<T>, sorted: Seq<T>, s: Seq<T>, key: spec_fn(T) -> int)
    requires
        stable_sort_of(sorted, s, key),
        stable_sort_of(again, sorted, key),
    ensures
        again == sorted,
{
    lemma_sorted_alike(again, sorted, key);
}

/// Sorts the items of the pairs by the key that each pair carries; items of
/// one key keep their order. Every pair has to carry the key of its item.
pub(crate) fn sort_keyed<T>(pairs: Vec<(u16, T)>, Ghost(key): Ghost<spec_fn(T) -> int>) -> (sorted:
    Vec<T>)
    requires
        keyed_by(pairs@, key),
    ensures
        stable_sort_of(sorted@, items_of(pairs@), key),
{
    let mut pairs = pairs;
    let ghost before = pairs@;
    sort_by_first(&mut pairs);
    let ghost after = pairs@;
    proof {
        lemma_items_sorted(after, before, key);
    }
    let mut sorted: Vec<T> = Vec::new();
    for pair in it: pairs
        invariant
            it.seq() == after,
            sorted@ == items_of(after).take(it.index() as int),
    {
        sorted.push(pair.1);
        assert(sorted@ =~= items_of(after).take(it.index() + 1));
    }
    assert(sorted@ =~= items_of(after));
    sorted
}

} // verus!
