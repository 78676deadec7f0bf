//! What holds of the list's operations taken together, over the sequences
//! that model the lists.
use vstd::prelude::*;

use crate::list::{front_of, rest_of, uncons_of, with_front};

verus! {

/// The items of a list that held `start` after each of `items` was put in
/// front of it by `cons`, one after the other.
pub open spec fn consed<A>(start: Seq<A>, items: Seq<A>) -> Seq<A> {
    items.fold_left(start, |list: Seq<A>, item: A| with_front(item, list))
}

/// The items of a list that held `start` after each of `items` was put behind
/// it by `put_back`, one after the other.
pub open spec fn put_behind<A>(start: Seq<A>, items: Seq<A>) -> Seq<A> {
    items.fold_left(start, |list: Seq<A>, item: A| list.push(item))
}

/// The items left in a list that held `items` after `count` calls of `head`.
pub open spec fn after_heads<A>(items: Seq<A>, count: nat) -> Seq<A>
    decreases count,
{
    if count == 0 {
        items
    } else {
        rest_of(after_heads(items, (count - 1) as nat))
    }
}

/// Items put in front of a list one after the other stand before what the list
/// held, the last one given at the front: `cons` of 1, 2, 3, 4 on the empty
/// list gives 4, 3, 2, 1.
pub proof fn lemma_cons_reverses<A>(start: Seq<A>, items: Seq<A>)
    ensures
        consed(start, items) == items.reverse() + start,
        consed(Seq::empty(), items) == items.reverse(),
    decreases items.len(),
{
    if items.len() > 0 {
        lemma_cons_reverses(start, items.drop_last());
        lemma_cons_reverses(Seq::empty(), items.drop_last());
    }
}

/// Items put behind a list one after the other stand after what the list held,
/// in the order in which they were given; on the empty list they are the list.
pub proof fn lemma_put_behind_keeps_order<A>(start: Seq<A>, items: Seq<A>)
    ensures
        put_behind(start, items) == start + items,
        put_behind(Seq::empty(), items) == items,
    decreases items.len(),
{
    if items.len() > 0 {
        lemma_put_behind_keeps_order(start, items.drop_last());
        lemma_put_behind_keeps_order(Seq::empty(), items.drop_last());
    }
}

/// A list built from given items is the mirror image of the list that `cons`
/// makes of the same items in the same order.
pub proof fn lemma_build_mirrors_cons<A>(items: Seq<A>)
    ensures
        put_behind(Seq::empty(), items) == consed(Seq::empty(), items).reverse(),
        consed(Seq::empty(), items.reverse()) == put_behind(Seq::empty(), items),
{
    lemma_cons_reverses(Seq::<A>::empty(), items);
    lemma_cons_reverses(Seq::<A>::empty(), items.reverse());
    lemma_put_behind_keeps_order(Seq::<A>::empty(), items);
}

/// What is left of a list without its front item: one item fewer, and each
/// item one place nearer the front; of an empty list, an empty list.
pub proof fn lemma_rest_of<A>(items: Seq<A>)
    ensures
        items.len() >= 1 ==> rest_of(items).len() == items.len() - 1,
        forall|i: int| 0 <= i < items.len() - 1 ==> rest_of(items)[i] == items[i + 1],
        items.len() >= 1 ==> with_front(items[0], rest_of(items)) == items,
        items.len() == 0 ==> rest_of(items) == Seq::<A>::empty(),
{
}

/// Calls of `head` one after the other hand out the items from front to back:
/// the call after `count` earlier ones returns the item at place `count`, and
/// nothing once every item is out.
pub proof fn lemma_heads_drain<A>(items: Seq<A>, count: nat)
    ensures
        count <= items.len() ==> after_heads(items, count) == items.skip(count as int),
        count >= items.len() ==> after_heads(items, count) == Seq::<A>::empty(),
        front_of(after_heads(items, count)) == if count < items.len() {
            Some(items[count as int])
        } else {
            None
        },
    decreases count,
{
    if count > 0 {
        lemma_heads_drain(items, (count - 1) as nat);
    }
}

/// Taking a list apart gives the item that `head` returns and the list that
/// `tail` returns, and gives nothing exactly where the list is empty.
pub proof fn lemma_uncons_is_head_and_tail<A>(items: Seq<A>)
    ensures
        match uncons_of(items) {
            Some((front, rest)) => front_of(items) == Some(front) && rest == rest_of(items),
            None => front_of(items) is None,
        },
        uncons_of(items) is None <==> items.len() == 0,
{
}

/// A new front item comes back out: after `cons`, `head` returns the item and
/// leaves the list as it was, and `uncons` gives both.
pub proof fn lemma_cons_then_head<A>(item: A, items: Seq<A>)
    ensures
        front_of(with_front(item, items)) == Some(item),
        rest_of(with_front(item, items)) == items,
        uncons_of(with_front(item, items)) == Some((item, items)),
{
}

} // verus!
