//! A generic stack that owns its nodes exclusively. It can be emptied element
//! by element, read in place, or changed in place.

use crate::model::{first_of, prepended, rest_of};
use vstd::prelude::*;

verus! {

/// One cell of a chain: an element and the rest of the chain, which the cell
/// owns.
pub struct Node<T> {
    pub elem: T,
    pub next: Option<Box<Node<T>>>,
}

/// A stack of elements; the head of the chain is the top.
pub struct List<T> {
    pub head: Option<Box<Node<T>>>,
}

/// The elements reachable from `link`, nearest first.
pub open spec fn chain_seq<T>(link: Option<Box<Node<T>>>) -> Seq<T>
    decreases link,
{
    match link {
        None => Seq::empty(),
        Some(node) => seq![node.elem] + chain_seq(node.next),
    }
}

impl<T> View for List<T> {
    type V = Seq<T>;

    /// The elements of the stack, top first.
    open spec fn view(&self) -> Seq<T> {
        chain_seq(self.head)
    }
}

impl<T> List<T> {
    /// The empty stack.
    pub fn new() -> (list: Self)
        ensures
            list@ == Seq::<T>::empty(),
    {
        List { head: None }
    }

    /// Puts `new_elem` on top.
    pub fn push(&mut self, new_elem: T)
        ensures
            final(self)@ == prepended(old(self)@, new_elem),
    {
        let new_node = Box::new(Node { elem: new_elem, next: self.head.take() });

        self.head = Some(new_node);
    }

    /// Takes the top element off and returns it; returns `None`, and leaves
    /// the stack empty, where there is none.
    pub fn pop(&mut self) -> (item: Option<T>)
        ensures
            item == first_of(old(self)@),
            final(self)@ == rest_of(old(self)@),
    {
        match self.head.take() {
            None => None,
            Some(boxed_node) => {
                let node = *boxed_node;
                proof {
                    assert(chain_seq(node.next) =~= rest_of(old(self)@));
                }
                self.head = node.next;
                Some(node.elem)
            },
        }
    }

    /// The top element, if there is one.
    pub fn peek(&self) -> (top: Option<&T>)
        ensures
            top == (match first_of(self@) {
                None => None,
                Some(v) => Some(&v),
            }),
    {
        match &self.head {
            None => None,
            Some(node) => Some(&node.elem),
        }
    }

    /// The top element, if there is one, to be changed in place. What the
    /// reference is left with becomes the top element; the elements below it
    /// stay as they are.
    pub fn peek_mut(&mut self) -> (top: Option<&mut T>)
        ensures
            match top {
                None => old(self)@.len() == 0 && final(self)@.len() == 0,
                Some(slot) => {
                    &&& first_of(old(self)@) == Some(*slot)
                    &&& final(self)@ == prepended(rest_of(old(self)@), *final(slot))
                },
            },
    {
        match &mut self.head {
            None => None,
            Some(node) => Some(&mut node.elem),
        }
    }
}

/// The elements from `node` to the end of its chain.
pub open spec fn node_seq<T>(node: Node<T>) -> Seq<T> {
    seq![node.elem] + chain_seq(node.next)
}

/// A cursor that owns a stack and hands its elements out by value, top
/// first.
pub struct IntoIter<T>(List<T>);

/// A cursor that reads the elements of a stack, top first.
pub struct Iter<'a, T> {
    next: Option<&'a Node<T>>,
}

/// A cursor that hands out the elements of a stack for writing, top first.
///
/// `next` is the node under the cursor. It is public so that contracts can
/// speak of what that node will hold when the borrow ends.
pub struct IterMut<'a, T> {
    pub next: Option<&'a mut Node<T>>,
}

impl<'a, T> IterMut<'a, T> {
    /// The elements that the cursor has yet to yield, as they are now.
    pub open spec fn remaining(&self) -> Seq<T> {
        match self.next {
            None => Seq::empty(),
            Some(node) => node_seq(*node),
        }
    }

    /// Yields the element under the cursor for writing and moves the cursor
    /// to the next node; yields `None` once the cursor is past the last node.
    /// The node that was under the cursor ends up holding what the yielded
    /// reference is left with, followed by what the node now under the cursor
    /// ends up holding.
    pub fn next(&mut self) -> (item: Option<&'a mut T>)
        ensures
            final(self).remaining() == rest_of(old(self).remaining()),
            match (item, old(self).next) {
                (None, None) => true,
                (Some(slot), Some(node)) => {
                    &&& first_of(old(self).remaining()) == Some(*slot)
                    &&& node_seq(*final(node)) == prepended(
                        match final(self).next {
                            None => Seq::empty(),
                            Some(following) => node_seq(*final(following)),
                        },
                        *final(slot),
                    )
                },
                _ => false,
            },
    {
        match self.next.take() {
            None => None,
            Some(node) => {
                self.next = match &mut node.next {
                    None => None,
                    Some(following) => Some(&mut **following),
                };
                Some(&mut node.elem)
            },
        }
    }
}

impl<T> List<T> {
    /// Turns the stack into a cursor that hands the elements out by value,
    /// top first.
    pub fn into_iter(self) -> (cursor: IntoIter<T>)
        ensures
            cursor.remaining() == self@,
    {
        IntoIter(self)
    }

    /// A cursor placed on the top of the stack. Each call starts afresh, and
    /// the stack is only read.
    pub fn iter<'a>(&'a self) -> (cursor: Iter<'a, T>)
        ensures
            cursor.remaining() == self@,
    {
        let next = match &self.head {
            None => None,
            Some(node) => {
                let first: &'a Node<T> = node;
                Some(first)
            },
        };
        Iter { next }
    }

    /// A cursor placed on the top of the stack, through which each element
    /// can be changed in place. When the cursor and the references it
    /// yielded are gone, the stack holds what the node under the cursor was
    /// left with.
    pub fn iter_mut(&mut self) -> (cursor: IterMut<'_, T>)
        ensures
            cursor.remaining() == old(self)@,
            final(self)@ == (match cursor.next {
                None => Seq::empty(),
                Some(node) => node_seq(*final(node)),
            }),
    {
        let next = match &mut self.head {
            None => None,
            Some(node) => Some(&mut **node),
        };
        IterMut { next }
    }
}

impl<T> IntoIter<T> {
    /// The elements that the cursor has yet to yield, in the order in which
    /// it will yield them.
    pub closed spec fn remaining(&self) -> Seq<T> {
        self.0@
    }

    /// Yields the next element by value; yields `None` once all are out.
    pub fn next(&mut self) -> (item: Option<T>)
        ensures
            item == first_of(old(self).remaining()),
            final(self).remaining() == rest_of(old(self).remaining()),
    {
        self.0.pop()
    }
}

impl<'a, T> Iter<'a, T> {
    /// The elements that the cursor has yet to yield, in the order in which
    /// it will yield them.
    pub closed spec fn remaining(&self) -> Seq<T> {
        match self.next {
            None => Seq::empty(),
            Some(node) => node_seq(*node),
        }
    }

    /// Yields the element under the cursor and moves the cursor to the next
    /// node; yields `None`, and stays put, once the cursor is past the last
    /// node.
    pub fn next(&mut self) -> (item: Option<&'a T>)
        ensures
            item == (match first_of(old(self).remaining()) {
                None => None,
                Some(v) => Some(&v),
            }),
            final(self).remaining() == rest_of(old(self).remaining()),
    {
        match self.next {
            None => None,
            Some(node) => {
                proof {
                    assert(chain_seq(node.next) =~= rest_of(node_seq(*node)));
                }
                self.next = match &node.next {
                    None => None,
                    Some(following) => {
                        let after: &'a Node<T> = following;
                        Some(after)
                    },
                };
                Some(&node.elem)
            },
        }
    }
}

impl<T> Drop for List<T> {
    /// Frees the nodes one after the other in a loop. Each node is parted
    /// from its successor before it is freed, and the stack is left empty,
    /// so freeing never descends along the chain.
    fn drop(&mut self)
        ensures
            final(self)@ == Seq::<T>::empty(),
        opens_invariants none
        no_unwind
    {
        let mut link = None;
        std::mem::swap(&mut link, &mut self.head);
        loop
            invariant
                self.head is None,
            decreases link,
        {
            match link {
                None => {
                    break ;
                },
                Some(mut boxed_node) => {
                    let mut rest = None;
                    std::mem::swap(&mut rest, &mut boxed_node.next);
                    link = rest;
                },
            }
        }
    }
}

} // verus!
