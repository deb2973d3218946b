//! Window lists, by the two ways in which platforms offer them.

pub mod native;
pub mod shared;
