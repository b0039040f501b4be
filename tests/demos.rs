use box_list::List;
use box_list::{boxed_line, demo_list, push_decimal, simple_example_of_box, use_list};

#[test]
fn boxed_five_shows_as_b_equals_5() {
    assert_eq!(simple_example_of_box(), "b = 5");
}

#[test]
fn chain_shows_nested_debug_form() {
    assert_eq!(demo_list().debug_string(), "Cons(1, Cons(2, Cons(3, Nil)))");
}

#[test]
fn use_list_line_holds_the_chain() {
    assert_eq!(use_list(), "List is: Cons(1, Cons(2, Cons(3, Nil)))");
}

#[test]
fn chain_is_built_in_order() {
    let list = demo_list();
    let mut values = Vec::new();
    let mut cur: &List = &list;
    while let List::Cons(v, next) = cur {
        values.push(*v);
        cur = next;
    }
    assert_eq!(values, vec![1, 2, 3]);
}

#[test]
fn repeated_runs_give_identical_text() {
    let first_box = simple_example_of_box();
    let first_list = use_list();
    for _ in 0..5 {
        assert_eq!(simple_example_of_box(), first_box);
        assert_eq!(use_list(), first_list);
        assert_eq!(demo_list().debug_string(), demo_list().debug_string());
    }
}

#[test]
fn lists_built_apart_with_same_values_show_alike() {
    let a = List::Cons(-7, Box::new(List::Cons(40, Box::new(List::Nil))));
    let b = List::Cons(-7, Box::new(List::Cons(40, Box::new(List::Nil))));
    assert_eq!(a.debug_string(), b.debug_string());
    assert_eq!(a.debug_string(), "Cons(-7, Cons(40, Nil))");
}

#[test]
fn empty_list_shows_as_nil() {
    assert_eq!(List::Nil.debug_string(), "Nil");
}

#[test]
fn single_link_list() {
    let l = List::Cons(0, Box::new(List::Nil));
    assert_eq!(l.debug_string(), "Cons(0, Nil)");
}

#[test]
fn extreme_values_in_list() {
    let l = List::Cons(i32::MIN, Box::new(List::Cons(i32::MAX, Box::new(List::Nil))));
    assert_eq!(l.debug_string(), "Cons(-2147483648, Cons(2147483647, Nil))");
}

#[test]
fn push_debug_appends_after_existing_text() {
    let l = List::Cons(12, Box::new(List::Nil));
    let mut out = String::from("x=");
    l.push_debug(&mut out);
    assert_eq!(out, "x=Cons(12, Nil)");
}

#[test]
fn boxed_line_of_other_values() {
    assert_eq!(boxed_line(&Box::new(0)), "b = 0");
    assert_eq!(boxed_line(&Box::new(10)), "b = 10");
    assert_eq!(boxed_line(&Box::new(-305)), "b = -305");
    assert_eq!(boxed_line(&Box::new(i32::MAX)), "b = 2147483647");
    assert_eq!(boxed_line(&Box::new(i32::MIN)), "b = -2147483648");
}

#[test]
fn push_decimal_appends_digits() {
    let mut out = String::from("n:");
    push_decimal(&mut out, 9);
    push_decimal(&mut out, -1);
    push_decimal(&mut out, 100);
    assert_eq!(out, "n:9-1100");
}

#[test]
fn push_decimal_on_empty_string() {
    let mut out = String::new();
    push_decimal(&mut out, 1234567890);
    assert_eq!(out, "1234567890");
}
