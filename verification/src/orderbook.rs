//! Order-book levels in best-first order: bids with the highest price
//! first, asks with the lowest. Levels of equal price keep their order.

use crate::decimal::Decimal;
use vstd::prelude::*;

verus! {

/// One price level of an order book.
#[derive(Clone, Copy, Debug)]
pub struct OrderBookLevel {
    pub price: Decimal,
    pub size: Decimal,
}

/// `a` must stand before `b`: its price is higher, where the best price is
/// the highest, or lower, where the best price is the lowest.
pub open spec fn goes_before(a: OrderBookLevel, b: OrderBookLevel, descending: bool) -> bool {
    if descending {
        a.price@.rank() > b.price@.rank()
    } else {
        a.price@.rank() < b.price@.rank()
    }
}

/// No level stands behind one that it must stand before.
pub open spec fn ordered(levels: Seq<OrderBookLevel>, descending: bool) -> bool {
    forall|i: int, j: int|
        0 <= i < j < levels.len() ==> !goes_before(#[trigger] levels[j], #[trigger] levels[i], descending)
}

/// Where `level` joins `levels`: behind the last level that it need not
/// stand before.
pub open spec fn slot(levels: Seq<OrderBookLevel>, level: OrderBookLevel, descending: bool) -> int
    decreases levels.len(),
{
    if levels.len() > 0 && goes_before(level, levels.last(), descending) {
        slot(levels.drop_last(), level, descending)
    } else {
        levels.len() as int
    }
}

/// The levels in best-first order, each one having joined those before it
/// at its slot.
pub open spec fn sorted(levels: Seq<OrderBookLevel>, descending: bool) -> Seq<OrderBookLevel>
    decreases levels.len(),
{
    if levels.len() == 0 {
        levels
    } else {
        let earlier = sorted(levels.drop_last(), descending);
        earlier.insert(slot(earlier, levels.last(), descending), levels.last())
    }
}

/// The levels of one price, in the order in which they stand.
pub open spec fn at_price(levels: Seq<OrderBookLevel>, rank: int) -> Seq<OrderBookLevel> {
    levels.filter(|l: OrderBookLevel| l.price@.rank() == rank)
}

fn precedes(a: &OrderBookLevel, b: &OrderBookLevel, descending: bool) -> (r: bool)
    ensures
        r == goes_before(*a, *b, descending),
{
    if descending {
        b.price.less_than(&a.price)
    } else {
        a.price.less_than(&b.price)
    }
}

/// The slot lies within the list; every level from the slot on must stand
/// behind the newcomer, and the level just before the slot need not.
pub proof fn slot_divides(levels: Seq<OrderBookLevel>, level: OrderBookLevel, descending: bool)
    ensures
        0 <= slot(levels, level, descending) <= levels.len(),
        forall|k: int|
            slot(levels, level, descending) <= k < levels.len() ==> goes_before(
                level,
                #[trigger] levels[k],
                descending,
            ),
        slot(levels, level, descending) > 0 ==> !goes_before(
            level,
            levels[slot(levels, level, descending) - 1],
            descending,
        ),
    decreases levels.len(),
{
    if levels.len() > 0 && goes_before(level, levels.last(), descending) {
        let front = levels.drop_last();
        slot_divides(front, level, descending);
        assert forall|k: int| slot(levels, level, descending) <= k < levels.len() implies goes_before(
            level,
            #[trigger] levels[k],
            descending,
        ) by {
            if k < front.len() {
                assert(levels[k] == front[k]);
            }
        }
        if slot(levels, level, descending) > 0 {
            assert(levels[slot(levels, level, descending) - 1] == front[slot(
                front,
                level,
                descending,
            ) - 1]);
        }
    }
}

fn sort_levels(levels: Vec<OrderBookLevel>, descending: bool) -> (r: Vec<OrderBookLevel>)
    ensures
        r@ == sorted(levels@, descending),
{
    let mut out: Vec<OrderBookLevel> = Vec::new();
    let mut i: usize = 0;
    while i < levels.len()
        invariant
            i <= levels.len(),
            out@ == sorted(levels@.take(i as int), descending),
            out@.len() == i,
        decreases levels.len() - i,
    {
        let level = levels[i];
        let mut j: usize = out.len();
        assert(out@.take(j as int) =~= out@);
        while j > 0 && precedes(&level, &out[j - 1], descending)
            invariant
                j <= out.len(),
                slot(out@, level, descending) == slot(out@.take(j as int), level, descending),
            decreases j,
        {
            assert(out@.take(j as int).drop_last() =~= out@.take(j - 1));
            j -= 1;
        }
        proof {
            assert(out@.take(out.len() as int) =~= out@);
            assert(slot(out@.take(j as int), level, descending) == j);
            let upto = levels@.take(i + 1);
            assert(upto.drop_last() =~= levels@.take(i as int));
            assert(upto.last() == level);
        }
        out.insert(j, level);
        i += 1;
    }
    proof {
        assert(levels@.take(levels.len() as int) =~= levels@);
    }
    out
}

/// Sorts bids best first: highest price first, equal prices in their old
/// order.
pub fn sort_bids(bids: Vec<OrderBookLevel>) -> (r: Vec<OrderBookLevel>)
    ensures
        r@ == sorted(bids@, true),
        r@.len() == bids@.len(),
        r@.to_multiset() == bids@.to_multiset(),
        ordered(r@, true),
{
    proof {
        sorting_keeps_levels(bids@, true);
        sorting_orders(bids@, true);
    }
    sort_levels(bids, true)
}

/// Sorts asks best first: lowest price first, equal prices in their old
/// order.
pub fn sort_asks(asks: Vec<OrderBookLevel>) -> (r: Vec<OrderBookLevel>)
    ensures
        r@ == sorted(asks@, false),
        r@.len() == asks@.len(),
        r@.to_multiset() == asks@.to_multiset(),
        ordered(r@, false),
{
    proof {
        sorting_keeps_levels(asks@, false);
        sorting_orders(asks@, false);
    }
    sort_levels(asks, false)
}

/// Sorting neither adds nor drops nor changes a level.
pub proof fn sorting_keeps_levels(levels: Seq<OrderBookLevel>, descending: bool)
    ensures
        sorted(levels, descending).len() == levels.len(),
        sorted(levels, descending).to_multiset() == levels.to_multiset(),
    decreases levels.len(),
{
    if levels.len() > 0 {
        let earlier = sorted(levels.drop_last(), descending);
        sorting_keeps_levels(levels.drop_last(), descending);
        slot_divides(earlier, levels.last(), descending);
        vstd::seq_lib::to_multiset_insert(
            earlier,
            slot(earlier, levels.last(), descending),
            levels.last(),
        );
        vstd::seq_lib::to_multiset_build(levels.drop_last(), levels.last());
        assert(levels.drop_last().push(levels.last()) =~= levels);
    }
}

/// Sorted bids have non-increasing prices and sorted asks non-decreasing
/// ones.
pub proof fn sorting_orders(levels: Seq<OrderBookLevel>, descending: bool)
    ensures
        ordered(sorted(levels, descending), descending),
    decreases levels.len(),
{
    if levels.len() > 0 {
        let earlier = sorted(levels.drop_last(), descending);
        let level = levels.last();
        let at = slot(earlier, level, descending);
        sorting_orders(levels.drop_last(), descending);
        slot_divides(earlier, level, descending);
        let out = earlier.insert(at, level);
        assert forall|i: int, j: int| 0 <= i < j < out.len() implies !goes_before(
            #[trigger] out[j],
            #[trigger] out[i],
            descending,
        ) by {
            if j < at {
                assert(out[i] == earlier[i] && out[j] == earlier[j]);
            } else if j == at {
                assert(out[i] == earlier[i]);
                assert(!goes_before(earlier[at - 1], earlier[i], descending) || i == at - 1);
            } else if i < at {
                assert(out[i] == earlier[i] && out[j] == earlier[j - 1]);
            } else if i == at {
                assert(out[j] == earlier[j - 1]);
            } else {
                assert(out[i] == earlier[i - 1] && out[j] == earlier[j - 1]);
            }
        }
    }
}

/// Levels that are in order already stay as they are.
pub proof fn sorting_keeps_ordered(levels: Seq<OrderBookLevel>, descending: bool)
    requires
        ordered(levels, descending),
    ensures
        sorted(levels, descending) == levels,
    decreases levels.len(),
{
    if levels.len() > 0 {
        let front = levels.drop_last();
        assert(ordered(front, descending)) by {
            assert forall|i: int, j: int| 0 <= i < j < front.len() implies !goes_before(
                #[trigger] front[j],
                #[trigger] front[i],
                descending,
            ) by {
                assert(front[i] == levels[i] && front[j] == levels[j]);
            }
        }
        sorting_keeps_ordered(front, descending);
        if front.len() > 0 {
            assert(front.last() == levels[levels.len() - 2]);
            assert(!goes_before(levels[levels.len() - 1], levels[levels.len() - 2], descending));
        }
        assert(slot(front, levels.last(), descending) == front.len());
        assert(front.insert(front.len() as int, levels.last()) =~= levels);
    }
}

/// Sorting twice gives what sorting once gives.
pub proof fn sorting_is_idempotent(levels: Seq<OrderBookLevel>, descending: bool)
    ensures
        sorted(sorted(levels, descending), descending) == sorted(levels, descending),
{
    sorting_orders(levels, descending);
    sorting_keeps_ordered(sorted(levels, descending), descending);
}

/// An empty book and a book of one level are sorted as they stand.
pub proof fn short_books_are_sorted(levels: Seq<OrderBookLevel>, descending: bool)
    requires
        levels.len() <= 1,
    ensures
        sorted(levels, descending) == levels,
{
    assert(ordered(levels, descending));
    sorting_keeps_ordered(levels, descending);
}

proof fn nothing_at_price(levels: Seq<OrderBookLevel>, rank: int)
    requires
        forall|i: int| 0 <= i < levels.len() ==> (#[trigger] levels[i]).price@.rank() != rank,
    ensures
        at_price(levels, rank) == Seq::<OrderBookLevel>::empty(),
    decreases levels.len(),
{
    reveal(Seq::filter);
    if levels.len() > 0 {
        let front = levels.drop_last();
        assert forall|i: int| 0 <= i < front.len() implies (#[trigger] front[i]).price@.rank()
            != rank by {
            assert(front[i] == levels[i]);
        }
        nothing_at_price(front, rank);
        assert(levels.last() == levels[levels.len() - 1]);
    }
}

/// Sorting keeps levels of equal price in the order in which they came.
pub proof fn sorting_is_stable(levels: Seq<OrderBookLevel>, descending: bool, rank: int)
    ensures
        at_price(sorted(levels, descending), rank) == at_price(levels, rank),
    decreases levels.len(),
{
    reveal(Seq::filter);
    if levels.len() > 0 {
        let pred = |l: OrderBookLevel| l.price@.rank() == rank;
        let front = levels.drop_last();
        let level = levels.last();
        let earlier = sorted(front, descending);
        let at = slot(earlier, level, descending);
        sorting_is_stable(front, descending, rank);
        slot_divides(earlier, level, descending);
        let head = earlier.take(at);
        let tail = earlier.skip(at);
        let out = earlier.insert(at, level);
        assert(out =~= head + seq![level] + tail);
        assert(earlier =~= head + tail);
        Seq::filter_distributes_over_add(head + seq![level], tail, pred);
        Seq::filter_distributes_over_add(head, seq![level], pred);
        Seq::filter_distributes_over_add(head, tail, pred);
        assert(seq![level].drop_last() =~= Seq::<OrderBookLevel>::empty());
        assert(Seq::<OrderBookLevel>::empty().filter(pred) =~= Seq::<OrderBookLevel>::empty());
        if level.price@.rank() == rank {
            assert forall|i: int| 0 <= i < tail.len() implies (#[trigger] tail[i]).price@.rank()
                != rank by {
                assert(tail[i] == earlier[at + i]);
                assert(goes_before(level, earlier[at + i], descending));
            }
            nothing_at_price(tail, rank);
            assert(seq![level].filter(pred) =~= seq![level]);
            assert(out.filter(pred) =~= head.filter(pred) + seq![level]);
            assert(earlier.filter(pred) =~= head.filter(pred));
            assert(levels.filter(pred) =~= front.filter(pred).push(level));
        } else {
            assert(seq![level].filter(pred) =~= Seq::<OrderBookLevel>::empty());
            assert(out.filter(pred) =~= head.filter(pred) + tail.filter(pred));
            assert(levels.filter(pred) =~= front.filter(pred));
        }
    }
}

} // verus!
