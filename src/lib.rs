//! Helpers derived for enums whose variants carry no data: `iter_fields()`
//! lists every variant in declaration order, `len()` counts them, and
//! `to_hashmap(value)` maps each of them to a clone of a value.
//!
//! A declaration is read into a [`decl::Declaration`]; the generators in
//! [`helpers`] turn it into the source of each helper, or reject it.

pub mod decl;
pub mod render;
pub mod helpers;
pub mod laws;
