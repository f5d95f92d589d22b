//! Entity identities, validated value objects and the `Team` aggregate.

pub mod error;
pub mod identity;
pub mod seedwork;
pub mod validation;
pub mod member;
pub mod team;
pub mod builder;
