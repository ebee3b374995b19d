//! Core of a small user-resource service: a model of the bounded
//! connection pool, the semantics of the `users` table, the mediator
//! that drives one create or lookup operation, and the encoding of
//! results for the HTTP surface.

pub mod encode;
pub mod mediator;
pub mod pool;
pub mod table;
pub mod user;
