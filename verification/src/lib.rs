//! A rule-based attribute transformer: rules scoped to a typeclass rewrite the
//! attributes of a product when their conditions hold.

pub mod rules;
