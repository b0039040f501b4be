//! A boxed integer and a recursive `Cons`/`Nil` list whose links are boxed,
//! with verified renderings of both as text.

mod decimal;
mod list;
mod demo;

pub use decimal::{decimal_text, digit_char, push_decimal, unsigned_text};
pub use list::List;
pub use demo::{boxed_line, demo_list, simple_example_of_box, use_list};
