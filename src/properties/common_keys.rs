//! Well-known property keys and values.

pub mod object;
pub mod predicate;
