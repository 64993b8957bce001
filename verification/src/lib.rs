//! Copy, move and borrow semantics of scalars and owned strings, as small
//! functions whose contracts say what each way of passing a value does to it.

pub mod borrowing;
pub mod console;
pub mod copying;
pub mod decimal;
pub mod moving;
pub mod text;
pub mod tour;
