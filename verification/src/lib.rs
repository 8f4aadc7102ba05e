//! A 128-bit unsigned integer assembled from two 64-bit machine words, with
//! exact arithmetic whose overflow behaviour is part of every contract.
//!
//! A [`U128`] represents the number `high * 2^64 + low`; contracts speak of
//! that number through the view `@`. Addition and subtraction propagate a
//! carry or borrow from the low word into the high word, multiplication
//! folds the four partial products of the words, and none of them ever
//! hands back a wrapped result as if it were exact:
//!
//! * the operators `+`, `-`, `*` and the word-level functions `addc`, `subc`,
//!   `mulc` require that the exact result fits in 128 bits and return it;
//! * `checked_add`, `checked_sub`, `checked_mul` accept every pair of
//!   operands and return [`ArithmeticOverflow`] exactly when it does not fit;
//! * `overflowing_add` and `overflowing_sub` return the result modulo 2^128
//!   together with the carry or borrow out of the high word.
//!
//! The operators are the default. Their precondition makes overflow a
//! verification error in verified callers; compiled code that reaches them
//! with overflowing operands from elsewhere panics.

pub mod carry;
pub mod convert;
pub mod laws;
pub mod operators;
pub mod product;
pub mod text;
pub mod word_pair;

pub use word_pair::ArithmeticOverflow;
pub use word_pair::U128;
