//! Stable ordering of browser listings and catalogs.
use vstd::prelude::*;

verus! {

/// A strict order on listing rows whose complement is transitive (a strict weak order).
pub trait ListingOrder: Sized {
    /// `self` must come strictly before `other`.
    spec fn spec_precedes(self, other: Self) -> bool;

    fn precedes(&self, other: &Self) -> (r: bool)
        ensures
            r == self.spec_precedes(*other),
    ;

    proof fn lemma_irreflexive(a: Self)
        ensures
            !a.spec_precedes(a),
    ;

    proof fn lemma_asymmetric(a: Self, b: Self)
        requires
            a.spec_precedes(b),
        ensures
            !b.spec_precedes(a),
    ;

    proof fn lemma_not_precedes_transitive(a: Self, b: Self, c: Self)
        requires
            !b.spec_precedes(a),
            !c.spec_precedes(b),
        ensures
            !c.spec_precedes(a),
    ;
}

/// No element of `s` comes strictly before an element to its left.
pub open spec fn is_listing_sorted<T: ListingOrder>(s: Seq<T>) -> bool {
    forall|i: int, j: int| 0 <= i < j < s.len() ==> !s[j].spec_precedes(s[i])
}

/// Neither row comes before the other.
pub open spec fn ties<T: ListingOrder>(a: T, b: T) -> bool {
    !a.spec_precedes(b) && !b.spec_precedes(a)
}

/// The rows of `s` that tie with `x`, in their order in `s`.
pub open spec fn tied_with<T: ListingOrder>(s: Seq<T>, x: T) -> Seq<T> {
    s.filter(|y: T| ties(y, x))
}

/// `sorted` lists the rows that tie with one another in the order `rows` gave them.
pub open spec fn keeps_tie_order<T: ListingOrder>(rows: Seq<T>, sorted: Seq<T>) -> bool {
    forall|x: T| #[trigger] tied_with(sorted, x) == tied_with(rows, x)
}

proof fn lemma_filter_none<T>(s: Seq<T>, pred: spec_fn(T) -> bool)
    requires
        forall|i: int| 0 <= i < s.len() ==> !pred(#[trigger] s[i]),
    ensures
        s.filter(pred) == Seq::<T>::empty(),
    decreases s.len(),
{
    reveal(Seq::filter);
    if s.len() > 0 {
        lemma_filter_none(s.drop_last(), pred);
    }
}

proof fn lemma_filter_single<T>(x: T, pred: spec_fn(T) -> bool)
    ensures
        seq![x].filter(pred) == (if pred(x) { seq![x] } else { Seq::<T>::empty() }),
{
    reveal_with_fuel(Seq::filter, 2);
    assert(seq![x].drop_last() =~= Seq::<T>::empty());
}

/// Inserting `x` after every row it does not precede, and before the rows it precedes,
/// appends it to its own ties and leaves every other tie group as it was.
proof fn lemma_insert_keeps_ties<T: ListingOrder>(before: Seq<T>, k: int, x: T, z: T)
    requires
        0 <= k <= before.len(),
        forall|m: int| k <= m < before.len() ==> x.spec_precedes(#[trigger] before[m]),
    ensures
        tied_with(before.subrange(0, k) + seq![x] + before.subrange(k, before.len() as int), z)
            == tied_with(before, z) + tied_with(seq![x], z),
{
    let pred = |y: T| ties(y, z);
    let a = before.subrange(0, k);
    let b = before.subrange(k, before.len() as int);
    assert(before == a + b);
    Seq::filter_distributes_over_add(a, b, pred);
    Seq::filter_distributes_over_add(a + seq![x], b, pred);
    Seq::filter_distributes_over_add(a, seq![x], pred);
    lemma_filter_single(x, pred);
    if ties(x, z) {
        assert forall|i: int| 0 <= i < b.len() implies !pred(#[trigger] b[i]) by {
            assert(x.spec_precedes(before[k + i]));
            if !z.spec_precedes(b[i]) {
                T::lemma_not_precedes_transitive(b[i], z, x);
            }
        }
        lemma_filter_none(b, pred);
        assert(a.filter(pred) + seq![x] + b.filter(pred) =~= a.filter(pred) + b.filter(pred) + seq![x]);
    } else {
        assert(a.filter(pred) + Seq::<T>::empty() + b.filter(pred) =~= a.filter(pred) + b.filter(pred) + Seq::<T>::empty());
    }
}

/// Sorts rows into listing order, stably: the result holds exactly the rows given, and rows
/// that tie keep their order.
pub fn sort_listing<T: ListingOrder>(rows: Vec<T>) -> (sorted: Vec<T>)
    ensures
        is_listing_sorted(sorted@),
        sorted@.to_multiset() == rows@.to_multiset(),
        keeps_tie_order(rows@, sorted@),
{
    broadcast use vstd::seq_lib::group_to_multiset_ensures;

    let ghost given = rows@;
    let mut input = rows;
    let mut output: Vec<T> = Vec::new();
    let ghost all = input@.to_multiset();
    let ghost mut processed: Seq<T> = Seq::empty();
    while input.len() > 0
        invariant
            is_listing_sorted(output@),
            input@.to_multiset().add(output@.to_multiset()) == all,
            given == processed + input@,
            keeps_tie_order(processed, output@),
        decreases input.len(),
    {
        let ghost before_in = input@;
        let ghost before_out = output@;
        let x = input.remove(0);
        assert(before_in == seq![x] + input@);
        let mut k: usize = output.len();
        while k > 0 && x.precedes(&output[k - 1])
            invariant
                k <= output.len(),
                output@ == before_out,
                is_listing_sorted(output@),
                forall|m: int| k <= m < output.len() ==> x.spec_precedes(#[trigger] output@[m]),
            decreases k,
        {
            k = k - 1;
        }
        proof {
            if k > 0 {
                assert(!x.spec_precedes(output@[k - 1]));
                assert forall|m: int| 0 <= m < k implies !x.spec_precedes(#[trigger] output@[m]) by {
                    if m < k - 1 {
                        T::lemma_not_precedes_transitive(output@[m], output@[k - 1], x);
                    }
                }
            }
        }
        output.insert(k, x);
        proof {
            let o = output@;
            assert forall|z: T| #[trigger] tied_with(o, z) == tied_with(processed.push(x), z) by {
                lemma_insert_keeps_ties(before_out, k as int, x, z);
                assert(o == before_out.subrange(0, k as int) + seq![x] + before_out.subrange(k as int, before_out.len() as int));
                assert(processed.push(x) == processed + seq![x]);
                Seq::filter_distributes_over_add(processed, seq![x], |y: T| ties(y, z));
            }
            assert(given == processed.push(x) + input@);
            processed = processed.push(x);
            assert(o == before_out.subrange(0, k as int) + seq![x] + before_out.subrange(k as int, before_out.len() as int));
            assert forall|i: int, j: int| 0 <= i < j < o.len() implies !o[j].spec_precedes(o[i]) by {
                if i < k && j == k {
                    assert(o[i] == before_out[i]);
                } else if i == k && j > k {
                    assert(o[j] == before_out[j - 1]);
                    assert(x.spec_precedes(before_out[j - 1]));
                    T::lemma_asymmetric(x, before_out[j - 1]);
                } else if i < k && j > k {
                    assert(o[i] == before_out[i]);
                    assert(o[j] == before_out[j - 1]);
                } else if i > k {
                    assert(o[i] == before_out[i - 1]);
                    assert(o[j] == before_out[j - 1]);
                } else {
                    assert(o[i] == before_out[i]);
                    assert(o[j] == before_out[j]);
                }
            }
            vstd::seq_lib::lemma_multiset_commutative(before_out.subrange(0, k as int), seq![x] + before_out.subrange(k as int, before_out.len() as int));
            assert(before_out == before_out.subrange(0, k as int) + before_out.subrange(k as int, before_out.len() as int));
            vstd::seq_lib::lemma_multiset_commutative(before_out.subrange(0, k as int), before_out.subrange(k as int, before_out.len() as int));
            vstd::seq_lib::lemma_multiset_commutative(seq![x], before_out.subrange(k as int, before_out.len() as int));
            assert(o == before_out.subrange(0, k as int) + (seq![x] + before_out.subrange(k as int, before_out.len() as int)));
            vstd::seq_lib::lemma_multiset_commutative(seq![x], input@);
        }
    }
    assert(input@.to_multiset() =~= vstd::multiset::Multiset::empty());
    assert(given == processed);
    output
}

} // verus!
