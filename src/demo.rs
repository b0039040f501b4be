use vstd::prelude::*;

use crate::decimal::{decimal_text, push_decimal};
use crate::list::List;

verus! {

/// The line that shows a boxed integer: `b = ` and the value in decimal.
pub fn boxed_line(b: &Box<i32>) -> (r: String)
    ensures
        r@ == "b = "@ + decimal_text(**b as int),
{
    let mut out = String::from_str("b = ");
    push_decimal(&mut out, **b);
    out
}

/// Puts the integer 5 in a box and returns the line that shows it. The box
/// is released when the function returns.
pub fn simple_example_of_box() -> (r: String)
    ensures
        r@ == "b = 5"@,
{
    let b = Box::new(5i32);
    let r = boxed_line(&b);
    proof {
        reveal_strlit("b = ");
        reveal_strlit("b = 5");
        assert(decimal_text(5) =~= seq!['5']);
        assert(r@ =~= "b = 5"@);
    }
    r
}

/// Builds the chain `1, 2, 3`, from the terminal `Nil` outward, each link
/// owned by a box.
pub fn demo_list() -> (r: Box<List>)
    ensures
        r@ == seq![1i32, 2, 3],
{
    let r = Box::new(
        List::Cons(1, Box::new(List::Cons(2, Box::new(List::Cons(3, Box::new(List::Nil)))))),
    );
    proof {
        reveal_with_fuel(List::values, 4);
        assert(r@ =~= seq![1i32, 2, 3]);
    }
    r
}

/// Builds the chain `1, 2, 3` and returns the line that shows its debug
/// form. The whole chain is released when the function returns.
pub fn use_list() -> (r: String)
    ensures
        r@ == "List is: Cons(1, Cons(2, Cons(3, Nil)))"@,
{
    let list = demo_list();
    let mut out = String::from_str("List is: ");
    list.push_debug(&mut out);
    proof {
        reveal_strlit("List is: ");
        reveal_strlit("Cons(");
        reveal_strlit(", ");
        reveal_strlit(")");
        reveal_strlit("Nil");
        reveal_strlit("List is: Cons(1, Cons(2, Cons(3, Nil)))");
        reveal_with_fuel(List::debug_text, 4);
        reveal_with_fuel(List::values, 4);
        let shown = List::Cons(
            1,
            Box::new(List::Cons(2, Box::new(List::Cons(3, Box::new(List::Nil))))),
        );
        assert(shown@ =~= seq![1i32, 2, 3]);
        List::lemma_debug_text_determined_by_values(*list, shown);
        assert(decimal_text(1) =~= seq!['1']);
        assert(decimal_text(2) =~= seq!['2']);
        assert(decimal_text(3) =~= seq!['3']);
        assert(out@ =~= "List is: Cons(1, Cons(2, Cons(3, Nil)))"@);
    }
    out
}

} // verus!
