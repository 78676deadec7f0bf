//! A list that grows at its front: an owned, ordered collection with `cons`
//! to put an item in front, `append` to take over another list, and `head`,
//! `tail` and `uncons` to take it apart from the front.
use std::collections::VecDeque;
use std::fmt::Display;
use vstd::prelude::*;
use vstd::string::to_string_from_display_ensures;

use crate::text::{bracketed, chars_of, render};

verus! {

/// The basic data structure of functional programming. It cannot be indexed,
/// but it grows by `cons`, and `build` makes one from given items.
///
/// A list is modelled by the sequence of its items from front to back.
#[derive(Debug, Eq, PartialEq, Ord, PartialOrd)]
pub struct List<A> {
    data: VecDeque<A>,
}

impl<A> View for List<A> {
    type V = Seq<A>;

    closed spec fn view(&self) -> Seq<A> {
        self.data@
    }
}

/// The items `items` with `item` put in front of them.
pub open spec fn with_front<A>(item: A, items: Seq<A>) -> Seq<A> {
    seq![item] + items
}

/// The item at the front of `items`, if there is one.
pub open spec fn front_of<A>(items: Seq<A>) -> Option<A> {
    if items.len() == 0 {
        None
    } else {
        Some(items[0])
    }
}

/// The items that follow the front of `items`; none where `items` has none.
pub open spec fn rest_of<A>(items: Seq<A>) -> Seq<A> {
    if items.len() == 0 {
        items
    } else {
        items.subrange(1, items.len() as int)
    }
}

/// Whether `parts` holds, item by item, a text that the items of `items`
/// gave of themselves.
pub open spec fn shown_as<A: Display>(items: Seq<A>, parts: Seq<String>) -> bool {
    &&& parts.len() == items.len()
    &&& forall|i: int|
        0 <= i < items.len() ==> to_string_from_display_ensures::<A>(&items[i], #[trigger] parts[i])
}

/// What taking `items` apart gives: the front item and the items that follow
/// it, or nothing where there is no item.
pub open spec fn uncons_of<A>(items: Seq<A>) -> Option<(A, Seq<A>)> {
    if items.len() == 0 {
        None
    } else {
        Some((items[0], items.subrange(1, items.len() as int)))
    }
}

impl<A> List<A> {
    /// An empty list.
    pub fn new() -> (list: List<A>)
        ensures
            list@ == Seq::<A>::empty(),
    {
        List::<A> { data: VecDeque::new() }
    }

    /// Puts `item` in front of the list.
    pub fn cons(&mut self, item: A)
        ensures
            final(self)@ == with_front(item, old(self)@),
    {
        self.data.push_front(item);
    }

    /// Puts `item` behind the last item of the list, so that items given one
    /// after the other stand in the list in the order in which one reads them.
    pub fn put_back(&mut self, item: A)
        ensures
            final(self)@ == old(self)@.push(item),
    {
        self.data.push_back(item);
    }

    /// The list of the given items, the first of them at its front.
    pub fn build(items: Vec<A>) -> (list: List<A>)
        ensures
            list@ == items@,
    {
        let ghost given = items@;
        let mut list = List::new();
        for item in it: items
            invariant
                it.seq() == given,
                list@ == given.take(it.index() as int),
        {
            list.put_back(item);
        }
        list
    }

    /// Moves the items of `item` behind those of this list, in the order in
    /// which they stood. `item` is used up.
    pub fn append(&mut self, item: List<A>)
        ensures
            final(self)@ == old(self)@ + item@,
            final(self)@.len() == old(self)@.len() + item@.len(),
            item@.len() == 0 ==> final(self)@ == old(self)@,
    {
        let mut from = item;
        loop
            invariant
                self@ + from@ == old(self)@ + item@,
            ensures
                from@.len() == 0,
            decreases from@.len(),
        {
            match from.data.pop_front() {
                Some(i) => {
                    self.data.push_back(i);
                },
                None => {
                    break ;
                },
            }
        }
    }

    /// Whether the list holds no item.
    pub fn null(&self) -> (empty: bool)
        ensures
            empty == (self@.len() == 0),
    {
        self.data.len() == 0
    }

    /// Takes the front item out of the list and returns it; `None`, and the
    /// list unchanged, where it is empty.
    pub fn head(&mut self) -> (front: Option<A>)
        ensures
            front == front_of(old(self)@),
            final(self)@ == rest_of(old(self)@),
    {
        self.data.pop_front()
    }

    /// The list without its front item; the empty list stays empty.
    pub fn tail(self) -> (rest: List<A>)
        ensures
            rest@ == rest_of(self@),
            self@.len() >= 1 ==> rest@.len() == self@.len() - 1,
            self@.len() == 0 ==> rest@.len() == 0,
    {
        let mut list = self;
        list.data.pop_front();
        list
    }

    /// Takes the list apart: its front item and the list of the items that
    /// followed it, or `None` where the list is empty.
    pub fn uncons(self) -> (parts: Option<(A, List<A>)>)
        ensures
            match parts {
                Some((front, rest)) => uncons_of(self@) == Some((front, rest@)),
                None => uncons_of(self@) is None,
            },
    {
        let mut list = self;
        if let Some(x) = list.data.pop_front() {
            Some((x, list))
        } else {
            None
        }
    }
}

impl<A: Clone> Clone for List<A> {
    /// A list of as many items, each a clone of the item at its place.
    fn clone(&self) -> (copy: Self)
        ensures
            copy@.len() == self@.len(),
            forall|i: int| 0 <= i < self@.len() ==> cloned::<A>(self@[i], #[trigger] copy@[i]),
    {
        List { data: self.data.clone() }
    }
}

impl<A: Display> List<A> {
    /// The list as text: its items from front to back, each as it shows
    /// itself, between square brackets.
    pub fn to_string(&self) -> (text: String)
        ensures
            exists|parts: Seq<String>|
                #[trigger] shown_as(self@, parts) && text@ == bracketed(chars_of(parts)),
    {
        let mut parts: Vec<String> = Vec::new();
        let mut i: usize = 0;
        while i < self.data.len()
            invariant
                i <= self@.len(),
                shown_as(self@.take(i as int), parts@),
            decreases self@.len() - i,
        {
            parts.push(self.data[i].to_string());
            i += 1;
        }
        assert(self@.take(i as int) =~= self@);
        render(&parts)
    }
}

} // verus!
