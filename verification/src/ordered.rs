//! Ordering the rows of a table with the table's comparator: a stable
//! insertion sort of the row positions.
use std::cmp::Ordering;
use vstd::prelude::*;
use crate::table::{State, TableView, is_permutation, arranged, arranged_at, count_of, item_at};

verus! {

/// True when the comparator `compare`, asked about `a` and `b` for `column`,
/// puts `a` before `b`: it answers `Less`, or `Greater` when the order is
/// reversed.
pub open spec fn precedes<T, F: Fn(&T, &T, usize) -> Ordering>(compare: F, a: T, b: T, column: usize, reverse: bool) -> bool {
    call_ensures(compare, (&a, &b, column), if reverse { Ordering::Greater } else { Ordering::Less })
}

/// What the sort needs of the comparator for `column`: it can be asked about
/// any two rows, it gives one answer to one question, and it never puts each
/// of two rows before the other.
pub open spec fn comparator_laws<T, F: Fn(&T, &T, usize) -> Ordering>(compare: F, column: usize) -> bool {
    &&& forall|a: T, b: T| #[trigger] call_requires(compare, (&a, &b, column))
    &&& forall|a: T, b: T, x: Ordering, y: Ordering|
        #[trigger] call_ensures(compare, (&a, &b, column), x) && #[trigger] call_ensures(compare, (&a, &b, column), y) ==> x == y
    &&& forall|a: T, b: T|
        #[trigger] call_ensures(compare, (&a, &b, column), Ordering::Less) ==> !call_ensures(compare, (&b, &a, column), Ordering::Less)
    &&& forall|a: T, b: T|
        #[trigger] call_ensures(compare, (&a, &b, column), Ordering::Greater) ==> !call_ensures(compare, (&b, &a, column), Ordering::Greater)
}

/// True when `order` sorts `items` stably with the comparator: no row is put
/// before the row just ahead of it, and two rows change their order only
/// when the later one goes before the earlier one.
pub open spec fn sorted_stably<T, F: Fn(&T, &T, usize) -> Ordering>(
    items: Seq<T>,
    order: Seq<usize>,
    compare: F,
    column: usize,
    reverse: bool,
) -> bool {
    &&& forall|k: int| 0 <= k < order.len() - 1 ==>
        !precedes(compare, #[trigger] arranged_at(items, order, k + 1), arranged_at(items, order, k), column, reverse)
    &&& forall|p: int, q: int| 0 <= p < q < order.len() && order[p] > order[q] ==>
        precedes(compare, #[trigger] arranged_at(items, order, p), #[trigger] arranged_at(items, order, q), column, reverse)
}

/// Asks the comparator whether `a` goes before `b`.
fn goes_before<T, F: Fn(&T, &T, usize) -> Ordering>(compare: &F, a: &T, b: &T, column: usize, reverse: bool) -> (r: bool)
    requires
        comparator_laws(*compare, column),
    ensures
        r == precedes(*compare, *a, *b, column, reverse),
{
    let answer = compare(a, b, column);
    match answer {
        Ordering::Less => !reverse,
        Ordering::Greater => reverse,
        Ordering::Equal => false,
    }
}

/// The positions of `items` in the order that the comparator gives for
/// `column` (reversed when `reverse`); rows that it finds equal keep their
/// order.
pub fn sort_order<T, F: Fn(&T, &T, usize) -> Ordering>(items: &Vec<T>, column: usize, reverse: bool, compare: &F) -> (order: Vec<usize>)
    requires
        comparator_laws(*compare, column),
    ensures
        is_permutation(order@, items@.len()),
        sorted_stably(items@, order@, *compare, column, reverse),
{
    let mut order: Vec<usize> = Vec::new();
    let mut i: usize = 0;
    while i < items.len()
        invariant
            i <= items.len(),
            comparator_laws(*compare, column),
            is_permutation(order@, count_of(i)),
            sorted_stably(items@, order@, *compare, column, reverse),
        decreases items.len() - i,
    {
        let mut j: usize = order.len();
        while j > 0 && goes_before(compare, &items[i], &items[order[j - 1]], column, reverse)
            invariant
                i < items.len(),
                j <= order.len(),
                comparator_laws(*compare, column),
                is_permutation(order@, count_of(i)),
                forall|m: int| j <= m < order.len() ==>
                    precedes(*compare, item_at(items@, i), #[trigger] arranged_at(items@, order@, m), column, reverse),
            decreases j,
        {
            j = j - 1;
        }
        let ghost before = order@;
        proof {
            assert(j == 0 || !precedes(*compare, item_at(items@, i), arranged_at(items@, before, j - 1), column, reverse));
        }
        order.insert(j, i);
        proof {
            let after = order@;
            
            assert forall|k: int| 0 <= k < after.len() implies after[k] < i + 1 by {
                if k < j { assert(after[k] == before[k]); } else if k > j { assert(after[k] == before[k - 1]); }
            }
            assert forall|p: int, q: int| 0 <= p < q < after.len() implies after[p] != after[q] by {
                if p < j { assert(after[p] == before[p]); } else if p > j { assert(after[p] == before[p - 1]); }
                if q < j { assert(after[q] == before[q]); } else if q > j { assert(after[q] == before[q - 1]); }
            }
            assert forall|k: int| 0 <= k < after.len() - 1 implies
                !precedes(*compare, #[trigger] arranged_at(items@, after, k + 1), arranged_at(items@, after, k), column, reverse) by {
                if k + 1 < j {
                    assert(after[k] == before[k] && after[k + 1] == before[k + 1]);
                    assert(!precedes(*compare, arranged_at(items@, before, k + 1), arranged_at(items@, before, k), column, reverse));
                } else if k + 1 == j {
                    assert(after[k] == before[k] && after[k + 1] == i);
                    assert(arranged_at(items@, after, k + 1) == item_at(items@, i));
                    assert(arranged_at(items@, after, k) == arranged_at(items@, before, j - 1));
                } else if k == j {
                    assert(after[k] == i && after[k + 1] == before[k]);
                    assert(arranged_at(items@, after, k) == item_at(items@, i));
                    assert(arranged_at(items@, after, k + 1) == arranged_at(items@, before, k));
                    assert(precedes(*compare, item_at(items@, i), arranged_at(items@, before, k), column, reverse));
                } else {
                    assert(after[k] == before[k - 1] && after[k + 1] == before[k]);
                    assert(arranged_at(items@, after, k + 1) == arranged_at(items@, before, k));
                    assert(arranged_at(items@, after, k) == arranged_at(items@, before, k - 1));
                    assert(!precedes(*compare, arranged_at(items@, before, (k - 1) + 1), arranged_at(items@, before, k - 1), column, reverse));
                }
            }
            assert forall|p: int, q: int| 0 <= p < q < after.len() && after[p] > after[q] implies
                precedes(*compare, #[trigger] arranged_at(items@, after, p), #[trigger] arranged_at(items@, after, q), column, reverse) by {
                if p == j {
                    assert(after[q] == before[q - 1]);
                    assert(arranged_at(items@, after, p) == item_at(items@, i));
                    assert(arranged_at(items@, after, q) == arranged_at(items@, before, q - 1));
                    assert(precedes(*compare, item_at(items@, i), arranged_at(items@, before, q - 1), column, reverse));
                } else if q == j {
                    assert(after[q] == i);
                    if p < j { assert(after[p] == before[p]); } else { assert(after[p] == before[p - 1]); }
                } else {
                    let pp = if p < j { p } else { p - 1 };
                    let qq = if q < j { q } else { q - 1 };
                    assert(after[p] == before[pp] && after[q] == before[qq]);
                    assert(arranged_at(items@, after, p) == arranged_at(items@, before, pp));
                    assert(arranged_at(items@, after, q) == arranged_at(items@, before, qq));
                    assert(precedes(*compare, arranged_at(items@, before, pp), arranged_at(items@, before, qq), column, reverse));
                }
            }
        }
        i = i + 1;
    }
    order
}

impl<T, C> State<T, C> {
    /// Sorts the table by `column` with the comparator `compare` (backwards
    /// when `reverse`), when the table can be sorted: a stable sort, so rows
    /// that the comparator finds equal keep their order.
    pub fn sort_with<F: Fn(&T, &T, usize) -> Ordering>(&mut self, column: usize, reverse: bool, compare: &F)
        requires
            comparator_laws(*compare, column),
        ensures
            old(self)@.sorting ==> exists|order: Seq<usize>| {
                &&& is_permutation(order, old(self)@.items.len())
                &&& #[trigger] sorted_stably(old(self)@.items, order, *compare, column, reverse)
                &&& final(self)@ == (TableView {
                    items: arranged(old(self)@.items, order),
                    sort_column: Some(column),
                    sort_reverse: reverse,
                    ..old(self)@
                })
            },
            !old(self)@.sorting ==> final(self)@ == old(self)@,
    {
        let order = sort_order(self.items(), column, reverse, compare);
        let ghost o = order@;
        self.sort(column, reverse, order);
        proof {
            assert(sorted_stably(old(self)@.items, o, *compare, column, reverse));
        }
    }
}

} // verus!
