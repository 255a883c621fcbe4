use linked_lists::first::Link;
use linked_lists::first::List;
use linked_lists::first::Node;

#[test]
fn first_new_list_is_empty() {
    let mut new_list = List::new();
    let mut list_literal = List { head: Link::Empty };

    assert_eq!(new_list.pop(), list_literal.pop());
}

#[test]
fn first_pop_returns_pushed_val() {
    let mut list = List::new();
    let test_val = 5;

    list.push(test_val);

    assert_eq!(list.pop(), Some(test_val));
}

#[test]
fn first_empty_list_pops_none() {
    let mut list = List::new();

    assert_eq!(list.pop(), None);
}

#[test]
fn first_push_pop_empty_test() {
    let mut list = List::new();
    let test_val = 32;
    let test_val2 = test_val * 3;

    assert_eq!(list.pop(), None);

    assert_eq!(list.push(test_val), ());
    assert_eq!(list.pop(), Some(test_val));
    assert_eq!(list.pop(), None);

    list.push(test_val);
    list.push(test_val2);
    list.push(test_val2);
    assert_eq!(list.pop(), Some(test_val2));
    assert_eq!(list.pop(), Some(test_val2));
    assert_eq!(list.pop(), Some(test_val));
    assert_eq!(list.pop(), None);
    assert_eq!(list.pop(), None);
}

#[test]
fn first_pops_come_in_reverse_order_of_pushes() {
    let mut list = List::new();
    list.push(1);
    list.push(2);
    list.push(3);
    assert_eq!(list.pop(), Some(3));
    list.push(4);
    assert_eq!(list.pop(), Some(4));
    assert_eq!(list.pop(), Some(2));
    assert_eq!(list.pop(), Some(1));
    assert_eq!(list.pop(), None);
}

#[test]
fn first_holds_the_extreme_values() {
    let mut list = List::new();
    list.push(i32::MIN);
    list.push(0);
    list.push(i32::MAX);
    assert_eq!(list.pop(), Some(i32::MAX));
    assert_eq!(list.pop(), Some(0));
    assert_eq!(list.pop(), Some(i32::MIN));
    assert_eq!(list.pop(), None);
}

#[test]
fn first_list_literal_with_nodes_pops_from_the_head() {
    let last = Node { elem: 7, next: Link::Empty };
    let top = Node { elem: 9, next: Link::More(Box::new(last)) };
    let mut list = List { head: Link::More(Box::new(top)) };

    assert_eq!(list.pop(), Some(9));
    list.push(8);
    assert_eq!(list.pop(), Some(8));
    assert_eq!(list.pop(), Some(7));
    assert_eq!(list.pop(), None);
}

#[test]
fn first_long_stack_is_freed_without_deep_recursion() {
    let count: i32 = 200_000;
    let mut list = List::new();
    let mut i: i32 = 0;
    while i < count {
        list.push(i);
        i += 1;
    }
    assert_eq!(list.pop(), Some(count - 1));
    drop(list);
}
