//! A stack of `i32` that owns its nodes exclusively.

use crate::model::{first_of, prepended, rest_of};
use vstd::prelude::*;

verus! {

/// A stack of `i32`; the head of the chain is the top.
pub struct List {
    pub head: Link,
}

/// What a stack or a node points to: nothing, or the next node, which it
/// owns.
pub enum Link {
    Empty,
    More(Box<Node>),
}

/// One cell of a chain: an element and the rest of the chain.
pub struct Node {
    pub elem: i32,
    pub next: Link,
}

/// The elements reachable from `link`, nearest first.
pub open spec fn link_seq(link: Link) -> Seq<i32>
    decreases link,
{
    match link {
        Link::Empty => Seq::empty(),
        Link::More(node) => seq![node.elem] + link_seq(node.next),
    }
}

impl View for List {
    type V = Seq<i32>;

    /// The elements of the stack, top first.
    open spec fn view(&self) -> Seq<i32> {
        link_seq(self.head)
    }
}

impl List {
    /// The empty stack.
    pub fn new() -> (list: Self)
        ensures
            list@ == Seq::<i32>::empty(),
    {
        List { head: Link::Empty }
    }

    /// Puts `new_elem` on top.
    pub fn push(&mut self, new_elem: i32)
        ensures
            final(self)@ == prepended(old(self)@, new_elem),
    {
        let mut next = Link::Empty;
        std::mem::swap(&mut next, &mut self.head);
        let new_node = Box::new(Node { elem: new_elem, next });

        self.head = Link::More(new_node);
    }

    /// Takes the top element off and returns it; returns `None`, and leaves
    /// the stack empty, where there is none.
    pub fn pop(&mut self) -> (item: Option<i32>)
        ensures
            item == first_of(old(self)@),
            final(self)@ == rest_of(old(self)@),
    {
        let mut head = Link::Empty;
        std::mem::swap(&mut head, &mut self.head);
        match head {
            Link::Empty => None,
            Link::More(boxed_node) => {
                let node = *boxed_node;
                proof {
                    assert(link_seq(node.next) =~= rest_of(old(self)@));
                }
                self.head = node.next;
                Some(node.elem)
            },
        }
    }
}

impl Drop for List {
    /// Frees the nodes one after the other in a loop. Each node is parted
    /// from its successor before it is freed, and the stack is left empty,
    /// so freeing never descends along the chain.
    fn drop(&mut self)
        ensures
            final(self)@ == Seq::<i32>::empty(),
        opens_invariants none
        no_unwind
    {
        let mut curr_link = Link::Empty;
        std::mem::swap(&mut curr_link, &mut self.head);
        loop
            invariant
                self.head is Empty,
            decreases curr_link,
        {
            match curr_link {
                Link::Empty => {
                    break ;
                },
                Link::More(mut boxed_node) => {
                    let mut next = Link::Empty;
                    std::mem::swap(&mut next, &mut boxed_node.next);
                    curr_link = next;
                },
            }
        }
    }
}

} // verus!
