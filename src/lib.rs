//! A composition engine for request filters: a fixed algebra of operators
//! (`and`, `or`, `map`, `and_then`, `then`, `map_err`, `or_else`, `recover`,
//! `unify`, `untuple_one`) over suspendable extractions that share one
//! explicit routing context per request.
//!
//! Each filter states, as `Filter::extract`, what it yields on a request from
//! a given matched-path index. Each computation it starts is proved to
//! resolve to exactly that, however often it reports "not ready" on the way,
//! and to refuse any step after it has completed.
pub mod value;
pub mod reject;
pub mod route;
pub mod filter;
pub mod and;
pub mod or;
pub mod map;
pub mod map_err;
pub mod unify;
pub mod untuple_one;
pub mod and_then;
pub mod then;
pub mod or_else;
pub mod recover;
pub mod leaf;
pub mod callback;
pub mod service;
pub mod laws;
