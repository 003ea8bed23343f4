//! Validation and construction of the catalog's domain entities.
//!
//! Raw, free-form field input (the strings a signup or item-creation form
//! submits) is threaded through per-field validators into well-formed,
//! invariant-respecting values (`User`, `Item`), or else a precise error kind
//! from a closed taxonomy is reported. Builders accumulate one field at a
//! time, record every violation without stopping, and a terminal call either
//! emits the finished immutable entity or aggregates the recorded failures.

pub mod category;
pub mod config;
pub mod date;
pub mod item;
pub mod item_errors;
pub mod shared;
pub mod text;
pub mod user;
pub mod user_errors;
pub mod validators;
