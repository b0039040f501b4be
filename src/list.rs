use vstd::prelude::*;

use crate::decimal::{decimal_text, push_decimal};

verus! {

/// A singly linked list of `i32` values. Each `Cons` link owns its successor
/// through a `Box`, which gives the recursive type a finite size.
#[derive(Debug)]
pub enum List {
    Cons(i32, Box<List>),
    Nil,
}

impl View for List {
    type V = Seq<i32>;

    open spec fn view(&self) -> Seq<i32> {
        self.values()
    }
}

impl List {
    /// The values held by the list, from the head to the last link.
    pub open spec fn values(self) -> Seq<i32>
        decreases self,
    {
        match self {
            List::Cons(v, next) => seq![v] + next.values(),
            List::Nil => Seq::empty(),
        }
    }

    /// The debug form of the list: `Nil`, or `Cons(v, rest)` with `v` in
    /// decimal and `rest` in debug form.
    pub open spec fn debug_text(self) -> Seq<char>
        decreases self,
    {
        match self {
            List::Cons(v, next) => "Cons("@ + decimal_text(v as int) + ", "@ + next.debug_text()
                + ")"@,
            List::Nil => "Nil"@,
        }
    }

    /// Two lists that hold the same values have the same debug form: the
    /// rendering depends on the values alone, so building the same list again
    /// and rendering it again gives the same text.
    pub proof fn lemma_debug_text_determined_by_values(a: List, b: List)
        requires
            a@ == b@,
        ensures
            a.debug_text() == b.debug_text(),
        decreases a,
    {
        match (a, b) {
            (List::Cons(va, na), List::Cons(vb, nb)) => {
                assert(va == a@[0]);
                assert(vb == b@[0]);
                assert(na.values() =~= a@.drop_first());
                assert(nb.values() =~= b@.drop_first());
                List::lemma_debug_text_determined_by_values(*na, *nb);
            },
            (List::Cons(_, _), List::Nil) => {
                assert(a@.len() > 0);
            },
            (List::Nil, List::Cons(_, _)) => {
                assert(b@.len() > 0);
            },
            (List::Nil, List::Nil) => {},
        }
    }

    /// Appends the debug form of the list to `out`.
    pub fn push_debug(&self, out: &mut String)
        ensures
            final(out)@ == old(out)@ + self.debug_text(),
        decreases self,
    {
        match self {
            List::Cons(v, next) => {
                out.append("Cons(");
                push_decimal(out, *v);
                out.append(", ");
                next.push_debug(out);
                out.append(")");
                assert(out@ =~= old(out)@ + self.debug_text());
            },
            List::Nil => {
                out.append("Nil");
            },
        }
    }

    /// The debug form of the list as a new string.
    pub fn debug_string(&self) -> (r: String)
        ensures
            r@ == self.debug_text(),
    {
        let mut out = String::new();
        self.push_debug(&mut out);
        out
    }
}

} // verus!
