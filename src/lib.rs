//! Tagged event filtering: rules over the tags of an event, grouped by the
//! dimension they target, where a negated rule that matches overrides the
//! failures before it.

pub mod pattern;
pub mod filter;
pub mod event;
pub mod store;
pub mod tagged;
pub mod cli;
