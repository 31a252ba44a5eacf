//! A counter that only its own module can advance, a two-way signal, and the
//! fixed lines of text that a console front end writes.

pub mod counter;
pub mod signal;
pub mod text;

pub use counter::MyStruct;
pub use signal::MyEnum;
