//! A persistent list: prepending and taking the tail give new lists that share
//! their nodes with the list they came from, which stays as it was.

use crate::model::{
    first_of, law_first_of_prepended, law_rest_of_prepended, law_yield_order, prepended, rest_of,
    yielded_at,
};
use std::rc::Rc;
use vstd::prelude::*;

verus! {

/// One immutable cell of a chain: an element and the shared rest of the chain.
struct Node<T> {
    elem: T,
    tail: Option<Rc<Node<T>>>,
}

/// A handle on a chain of shared, immutable nodes.
pub struct List<T> {
    head: Option<Rc<Node<T>>>,
}

/// A cursor over the elements of a list, from the head to the last node.
pub struct Iter<'a, T> {
    next: Option<&'a Node<T>>,
}

/// The elements reachable from `link`, nearest first.
spec fn chain_seq<T>(link: Option<Rc<Node<T>>>) -> Seq<T>
    decreases link,
{
    match link {
        None => Seq::empty(),
        Some(node) => seq![node.elem] + chain_seq(node.tail),
    }
}

impl<T> View for List<T> {
    type V = Seq<T>;

    /// The elements of the list, head first.
    closed spec fn view(&self) -> Seq<T> {
        chain_seq(self.head)
    }
}

impl<T> List<T> {
    /// The empty list. Nothing is allocated.
    pub fn new() -> (list: List<T>)
        ensures
            list@ == Seq::<T>::empty(),
    {
        List { head: None }
    }

    /// A list with `new_elem` in front of the elements of this one. One node
    /// is allocated; it points to the head of this list, which is left as it
    /// was and is shared by both lists.
    pub fn append(&self, new_elem: T) -> (list: List<T>)
        ensures
            list@ == prepended(self@, new_elem),
    {
        let tail = match &self.head {
            None => None,
            Some(node) => Some(node.clone()),
        };
        List { head: Some(Rc::new(Node { elem: new_elem, tail })) }
    }

    /// The first element, if there is one.
    pub fn head(&self) -> (first: Option<&T>)
        ensures
            first == (match first_of(self@) {
                None => None,
                Some(v) => Some(&v),
            }),
    {
        match &self.head {
            None => None,
            Some(node) => Some(&node.elem),
        }
    }

    /// The list of what follows the first element, sharing its nodes with
    /// this list; the empty list where this one has fewer than two elements.
    pub fn tail(&self) -> (list: List<T>)
        ensures
            list@ == rest_of(self@),
    {
        let head = match &self.head {
            None => None,
            Some(node) => match &node.tail {
                None => None,
                Some(next) => Some(next.clone()),
            },
        };
        proof {
            if self.head is Some {
                assert(chain_seq(self.head->0.tail) =~= rest_of(self@));
            }
        }
        List { head }
    }

    /// A cursor placed on the head of this list. Each call starts afresh, and
    /// the list is only read.
    pub fn iter<'a>(&'a self) -> (cursor: Iter<'a, T>)
        ensures
            cursor.remaining() == self@,
    {
        let next = match &self.head {
            None => None,
            Some(node) => {
                let first: &'a Node<T> = node;
                Some(first)
            },
        };
        Iter { next }
    }
}

/// The elements from `node` to the end of its chain.
spec fn node_seq<T>(node: Node<T>) -> Seq<T> {
    seq![node.elem] + chain_seq(node.tail)
}

impl<'a, T> Iter<'a, T> {
    /// The elements that the cursor has yet to yield, in the order in which
    /// it will yield them.
    pub closed spec fn remaining(&self) -> Seq<T> {
        match self.next {
            None => Seq::empty(),
            Some(node) => node_seq(*node),
        }
    }

    /// Yields the element under the cursor and moves the cursor to the next
    /// node; yields `None`, and stays put, once the cursor is past the last
    /// node.
    pub fn next(&mut self) -> (item: Option<&'a T>)
        ensures
            item == (match first_of(old(self).remaining()) {
                None => None,
                Some(v) => Some(&v),
            }),
            final(self).remaining() == rest_of(old(self).remaining()),
    {
        match self.next {
            None => None,
            Some(node) => {
                proof {
                    assert(chain_seq(node.tail) =~= rest_of(node_seq(*node)));
                }
                self.next = match &node.tail {
                    None => None,
                    Some(following) => {
                        let after: &'a Node<T> = following;
                        Some(after)
                    },
                };
                Some(&node.elem)
            },
        }
    }
}

/// `Rc::try_unwrap`: hands out the node where `shared` is the only strong
/// pointer to it, and hands `shared` back where the node has other owners.
/// Either way the node is the one that `shared` pointed to. The call does not
/// panic.
#[verifier::external_body]
fn claim<T>(shared: Rc<Node<T>>) -> (outcome: Result<Node<T>, Rc<Node<T>>>)
    ensures
        match outcome {
            Ok(node) => node == *shared,
            Err(kept) => kept == shared,
        },
    opens_invariants none
    no_unwind
{
    Rc::try_unwrap(shared)
}

impl<T> Drop for List<T> {
    /// Releases the nodes that only this handle keeps alive, one after the
    /// other in a loop, and stops at the first node that another handle or
    /// node still holds. Each released node is parted from its successor
    /// before it is freed, and the handle is left empty, so freeing never
    /// descends along the chain.
    fn drop(&mut self)
        ensures
            final(self)@ == Seq::<T>::empty(),
        opens_invariants none
        no_unwind
    {
        let mut link = None;
        std::mem::swap(&mut link, &mut self.head);
        loop
            invariant
                self.head is None,
            decreases link,
        {
            match link {
                None => {
                    break ;
                },
                Some(shared) => match claim(shared) {
                    Ok(mut node) => {
                        let mut rest = None;
                        std::mem::swap(&mut rest, &mut node.tail);
                        link = rest;
                    },
                    Err(_) => {
                        break ;
                    },
                },
            }
        }
    }
}

/// The head of a list that `v` was put in front of is `v`.
pub proof fn law_head_of_append<T>(list: List<T>, v: T)
    ensures
        first_of(prepended(list@, v)) == Some(v),
{
    law_first_of_prepended(list@, v);
}

/// The tail of a list that `v` was put in front of has the elements of the
/// list itself.
pub proof fn law_tail_of_append<T>(list: List<T>, v: T)
    ensures
        rest_of(prepended(list@, v)) == list@,
{
    law_rest_of_prepended(list@, v);
}

/// Versions of a list do not disturb each other. A list is found again, with
/// the head it had, as the tail of whatever was put in front of it; what is
/// put in front of it a second time shows in the second result alone; and
/// what is put in front of a result leaves that result, and the list under
/// it, as they were.
pub proof fn law_versions_independent<T>(list: List<T>, v: T, w: T)
    ensures
        rest_of(prepended(list@, v)) == list@,
        first_of(rest_of(prepended(list@, v))) == first_of(list@),
        rest_of(prepended(list@, w)) == rest_of(prepended(list@, v)),
        first_of(prepended(list@, v)) == Some(v),
        rest_of(prepended(prepended(list@, v), w)) == prepended(list@, v),
        rest_of(rest_of(prepended(prepended(list@, v), w))) == list@,
{
    law_rest_of_prepended(list@, v);
    law_rest_of_prepended(list@, w);
    law_rest_of_prepended(prepended(list@, v), w);
}

/// Walking a list is repeatable: a cursor fresh from a list yields the
/// elements of the list in their order and then `None`, so any two such
/// cursors yield the same at every advance.
pub proof fn law_iteration_repeatable<'a, T>(
    list: List<T>,
    one: Iter<'a, T>,
    other: Iter<'a, T>,
    n: nat,
)
    requires
        one.remaining() == list@,
        other.remaining() == list@,
    ensures
        yielded_at(one.remaining(), n) == yielded_at(other.remaining(), n),
        yielded_at(one.remaining(), n) == (if n < list@.len() {
            Some(list@[n as int])
        } else {
            None
        }),
{
    law_yield_order(list@, n);
}

} // verus!
