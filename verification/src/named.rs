//! Things that the user picks by name (accounts, categories, bills, budgets)
//! and their order by name.

use vstd::prelude::*;

verus! {

broadcast use vstd::seq_lib::group_to_multiset_ensures;

/// Something with an id that is shown by its name.
#[derive(Clone, Debug)]
pub struct NamedId {
    pub id: u64,
    pub name: String,
}

/// The order of `String`: by characters, lexicographically (UTF-8 keeps the
/// order of code points, so this is the order of the bytes).
pub open spec fn text_lt(a: Seq<char>, b: Seq<char>) -> bool
    decreases a.len(),
{
    if a.len() == 0 {
        b.len() > 0
    } else if b.len() == 0 {
        false
    } else if a[0] != b[0] {
        a[0] < b[0]
    } else {
        text_lt(a.drop_first(), b.drop_first())
    }
}

/// The order of texts is transitive.
pub proof fn lemma_text_lt_transitive(a: Seq<char>, b: Seq<char>, c: Seq<char>)
    requires
        text_lt(a, b),
        text_lt(b, c),
    ensures
        text_lt(a, c),
    decreases a.len(),
{
    if a.len() > 0 && b.len() > 0 && c.len() > 0 && a[0] == b[0] && b[0] == c[0] {
        lemma_text_lt_transitive(a.drop_first(), b.drop_first(), c.drop_first());
    }
}

/// No text comes before itself.
pub proof fn lemma_text_lt_irreflexive(a: Seq<char>)
    ensures
        !text_lt(a, a),
    decreases a.len(),
{
    if a.len() > 0 {
        lemma_text_lt_irreflexive(a.drop_first());
    }
}

/// True when the names of `s` are in order.
pub open spec fn sorted_by_name(s: Seq<NamedId>) -> bool {
    forall|i: int, j: int| 0 <= i < j < s.len() ==> !text_lt(s[j].name@, s[i].name@)
}

/// Compares two texts by the order of `String`.
pub fn str_lt(a: &str, b: &str) -> (r: bool)
    ensures
        r == text_lt(a@, b@),
{
    let x = crate::text::str_chars(a);
    let y = crate::text::str_chars(b);
    let mut i: usize = 0;
    assert(x@.skip(0) =~= x@);
    assert(y@.skip(0) =~= y@);
    while i < x.len() && i < y.len() && x[i] == y[i]
        invariant
            i <= x.len() && i <= y.len(),
            text_lt(x@, y@) == text_lt(x@.skip(i as int), y@.skip(i as int)),
        decreases x.len() - i,
    {
        proof {
            let xs = x@.skip(i as int);
            let ys = y@.skip(i as int);
            assert(xs.drop_first() =~= x@.skip(i + 1));
            assert(ys.drop_first() =~= y@.skip(i + 1));
        }
        i = i + 1;
    }
    proof {
        let xs = x@.skip(i as int);
        let ys = y@.skip(i as int);
        if i < x.len() {
            assert(xs[0] == x@[i as int]);
        }
        if i < y.len() {
            assert(ys[0] == y@[i as int]);
        }
    }
    if i == x.len() {
        i < y.len()
    } else if i == y.len() {
        false
    } else {
        x[i] < y[i]
    }
}

/// True for the things named `n`.
pub open spec fn name_is(n: Seq<char>) -> spec_fn(NamedId) -> bool {
    |x: NamedId| x.name@ == n
}

/// A filter that no element passes keeps nothing.
proof fn lemma_filter_none<A>(s: Seq<A>, p: spec_fn(A) -> bool)
    requires
        forall|i: int| 0 <= i < s.len() ==> !p(#[trigger] s[i]),
    ensures
        s.filter(p) == Seq::<A>::empty(),
    decreases s.len(),
{
    reveal(Seq::filter);
    if s.len() > 0 {
        lemma_filter_none(s.drop_last(), p);
    }
}

/// A filter of one element keeps it when it passes.
proof fn lemma_filter_single<A>(x: A, p: spec_fn(A) -> bool)
    ensures
        seq![x].filter(p) == (if p(x) { seq![x] } else { Seq::<A>::empty() }),
{
    reveal_with_fuel(Seq::filter, 2);
    assert(seq![x].drop_last() =~= Seq::<A>::empty());
    assert(seq![x].last() == x);
    assert(Seq::<A>::empty().filter(p) == Seq::<A>::empty());
    assert(Seq::<A>::empty().push(x) =~= seq![x]);
}

/// True when `r` holds the things of `given` ordered by name, things with
/// equal names in the order they were given (as a stable sort leaves them).
pub open spec fn ordered_by_name(r: Seq<NamedId>, given: Seq<NamedId>) -> bool {
    &&& sorted_by_name(r)
    &&& r.to_multiset() == given.to_multiset()
    &&& forall|n: Seq<char>| #[trigger] r.filter(name_is(n)) == given.filter(name_is(n))
}

/// The same things ordered by name; things with equal names keep their
/// order (as `sort_by` on the names does).
pub fn sort_by_name(items: Vec<NamedId>) -> (r: Vec<NamedId>)
    ensures
        ordered_by_name(r@, items@),
{
    let ghost orig = items@;
    let mut r: Vec<NamedId> = Vec::new();
    let mut rest = items;
    while rest.len() > 0
        invariant
            sorted_by_name(r@),
            r@.to_multiset().add(rest@.to_multiset()) == orig.to_multiset(),
            forall|n: Seq<char>| #[trigger] orig.filter(name_is(n)) == r@.filter(name_is(n)) + rest@.filter(name_is(n)),
        decreases rest.len(),
    {
        let ghost old_rest = rest@;
        let x = rest.remove(0);
        // the first position whose name comes after x's
        let mut p: usize = 0;
        while p < r.len() && !str_lt(x.name.as_str(), r[p].name.as_str())
            invariant
                p <= r.len(),
                forall|i: int| 0 <= i < p ==> !text_lt(x.name@, r@[i].name@),
            decreases r.len() - p,
        {
            p = p + 1;
        }
        let ghost old_r = r@;
        proof {
            assert forall|j: int| p <= j < old_r.len() implies !text_lt(old_r[j].name@, x.name@) by {
                if text_lt(old_r[j].name@, x.name@) {
                    assert(text_lt(x.name@, old_r[p as int].name@));
                    if j > p {
                        assert(!text_lt(old_r[j].name@, old_r[p as int].name@));
                    }
                    lemma_text_lt_transitive(old_r[j].name@, x.name@, old_r[p as int].name@);
                    if j == p {
                        lemma_text_lt_irreflexive(old_r[j].name@);
                    }
                }
            }
        }
        r.insert(p, x);
        proof {
            assert(r@ == old_r.insert(p as int, x));
            vstd::seq_lib::to_multiset_insert(old_r, p as int, x);
            vstd::seq_lib::to_multiset_remove(old_rest, 0);
            assert(old_rest[0] == x);
            assert(old_rest.to_multiset().count(x) > 0) by {
                assert(old_rest.contains(x));
            }
            assert(r@.to_multiset().add(rest@.to_multiset()) =~= old_r.to_multiset().add(old_rest.to_multiset()));
            assert forall|i: int, j: int| 0 <= i < j < r@.len() implies !text_lt(r@[j].name@, r@[i].name@) by {
                if i < p && j == p {
                } else if i == p {
                } else {
                    let ii = if i < p { i } else { i - 1 };
                    let jj = if j < p { j } else { j - 1 };
                    assert(r@[i] == old_r[ii]);
                    assert(r@[j] == old_r[jj]);
                }
            }
            // the things after the insertion point are named otherwise than x
            assert forall|j: int| p <= j < old_r.len() implies old_r[j].name@ != x.name@ by {
                assert(text_lt(x.name@, old_r[p as int].name@));
                if old_r[j].name@ == x.name@ {
                    if j > p {
                        assert(!text_lt(old_r[j].name@, old_r[p as int].name@));
                    } else {
                        lemma_text_lt_irreflexive(x.name@);
                    }
                }
            }
            let head = old_r.take(p as int);
            let tail = old_r.skip(p as int);
            assert(r@ =~= head + seq![x] + tail);
            assert(old_r =~= head + tail);
            assert(old_rest =~= seq![x] + rest@);
            assert forall|n: Seq<char>| #[trigger] orig.filter(name_is(n)) == r@.filter(name_is(n)) + rest@.filter(name_is(n)) by {
                let q = name_is(n);
                Seq::filter_distributes_over_add(seq![x], rest@, q);
                Seq::filter_distributes_over_add(head + seq![x], tail, q);
                Seq::filter_distributes_over_add(head, seq![x], q);
                Seq::filter_distributes_over_add(head, tail, q);
                lemma_filter_single(x, q);
                if n == x.name@ {
                    assert forall|j: int| 0 <= j < tail.len() implies !q(#[trigger] tail[j]) by {
                        assert(tail[j] == old_r[p + j]);
                    }
                    lemma_filter_none(tail, q);
                    assert(r@.filter(q) =~= head.filter(q) + seq![x]);
                    assert(old_r.filter(q) =~= head.filter(q));
                } else {
                    assert(r@.filter(q) =~= head.filter(q) + tail.filter(q));
                }
                assert(orig.filter(q) == old_r.filter(q) + old_rest.filter(q));
            }
        }
    }
    assert(rest@.to_multiset() =~= vstd::multiset::Multiset::empty());
    assert forall|n: Seq<char>| #[trigger] r@.filter(name_is(n)) == items@.filter(name_is(n)) by {
        assert(rest@ =~= Seq::<NamedId>::empty());
        lemma_filter_none(rest@, name_is(n));
        assert(orig.filter(name_is(n)) == r@.filter(name_is(n)) + rest@.filter(name_is(n)));
        assert(r@.filter(name_is(n)) + Seq::<NamedId>::empty() =~= r@.filter(name_is(n)));
    }
    assert(r@.to_multiset().add(vstd::multiset::Multiset::empty()) =~= r@.to_multiset());
    r
}

} // verus!
