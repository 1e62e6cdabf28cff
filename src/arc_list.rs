//! An immutable singly-linked list whose tails are shared through `Arc`.
use std::sync::Arc;
use vstd::prelude::*;

verus! {

#[derive(Debug)]
struct Node<T> {
    data: T,
    next: Option<Arc<Node<T>>>,
}

/// A persistent list: `insert` prepends a node and shares the old list as its tail.
#[derive(Debug)]
pub struct ArcList<T> {
    inner: Option<Arc<Node<T>>>,
}

/// The items reachable from a node link, nearest first.
spec fn chain_view<T>(link: Option<Arc<Node<T>>>) -> Seq<T>
    decreases link,
{
    match link {
        None => Seq::empty(),
        Some(node) => seq![node.data].add(chain_view(node.next)),
    }
}

impl<T> View for ArcList<T> {
    type V = Seq<T>;

    /// The items, most recently inserted first.
    closed spec fn view(&self) -> Seq<T> {
        chain_view(self.inner)
    }
}

impl<T> ArcList<T> {
    /// The empty list, as a value of specifications.
    pub closed spec fn empty() -> Self {
        Self { inner: None }
    }

    /// The list with `data` in front of `self`, as a value of specifications.
    pub closed spec fn pushed(self, data: T) -> Self {
        Self { inner: Some(Arc::new(Node { data, next: self.inner })) }
    }

    /// The empty list.
    pub fn new() -> (r: Self)
        ensures
            r == Self::empty(),
            r@ == Seq::<T>::empty(),
    {
        Self { inner: None }
    }

    /// Prepends `data`; the old list becomes the tail, shared and not copied.
    pub fn insert(self, data: T) -> (r: Self)
        ensures
            r == self.pushed(data),
            r@ == seq![data].add(self@),
    {
        Self { inner: Some(Arc::new(Node { data, next: self.inner })) }
    }

    /// Walks the items from the most recently inserted one.
    pub fn iter<'s>(&'s self) -> (r: ArcListIter<'s, T>)
        ensures
            r@ == self@,
    {
        match &self.inner {
            None => ArcListIter { cursor: None },
            Some(node) => ArcListIter { cursor: Some(&**node) },
        }
    }
}

impl<T> Clone for ArcList<T> {
    /// Shares the whole chain: a new handle on the same nodes.
    fn clone(&self) -> (r: Self)
        ensures
            r == *self,
    {
        match &self.inner {
            None => Self { inner: None },
            Some(node) => Self { inner: Some(node.clone()) },
        }
    }
}

/// The empty list has no items.
pub broadcast proof fn lemma_empty_view<T>()
    ensures
        (#[trigger] ArcList::<T>::empty())@ == Seq::<T>::empty(),
{
}

/// Pushing puts one item in front of the old ones.
pub broadcast proof fn lemma_pushed_view<T>(list: ArcList<T>, data: T)
    ensures
        #[trigger] list.pushed(data)@ == seq![data].add(list@),
{
}

pub broadcast group group_arc_list_lemmas {
    lemma_empty_view,
    lemma_pushed_view,
}

/// A cursor over the items of an `ArcList`, nearest first.
pub struct ArcListIter<'s, T> {
    cursor: Option<&'s Node<T>>,
}

impl<'s, T> View for ArcListIter<'s, T> {
    type V = Seq<T>;

    /// The items not yet handed out.
    closed spec fn view(&self) -> Seq<T> {
        match self.cursor {
            None => Seq::empty(),
            Some(node) => seq![node.data].add(chain_view(node.next)),
        }
    }
}

impl<'s, T> ArcListIter<'s, T> {
    /// Hands out the next item, or `None` once every item has been handed out.
    pub fn next(&mut self) -> (r: Option<&'s T>)
        ensures
            old(self)@.len() == 0 ==> r.is_none() && final(self)@ == old(self)@,
            old(self)@.len() > 0 ==> r == Some(&old(self)@[0]) && final(self)@
                == old(self)@.drop_first(),
    {
        match self.cursor {
            None => None,
            Some(node) => {
                proof {
                    assert(seq![node.data].add(chain_view(node.next)).drop_first() =~= chain_view(
                        node.next,
                    ));
                }
                match &node.next {
                    None => {
                        self.cursor = None;
                    },
                    Some(rest) => {
                        self.cursor = Some(&**rest);
                    },
                }
                Some(&node.data)
            },
        }
    }
}

} // verus!
