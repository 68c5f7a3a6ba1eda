//! What the calls of the library give, said of each call on its own: of the arguments that go in and
//! the values that come out, with every text and number written out.

pub mod accounts;
pub mod pages;
pub mod parts;
pub mod requests;
pub mod together;
