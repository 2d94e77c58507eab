//! Request-parameter validation and dispatch for a small greeting service.
//!
//! A request's parameters are reduced to a map from field name to a single
//! string, bound to the record that the requested route asks for, and
//! rendered as a plain-text response. Every step is a function with a
//! contract that pins its result down.

pub mod bind;
pub mod extract;
pub mod fail;
pub mod laws;
pub mod param_map;
pub mod record;
pub mod response;
pub mod router;
