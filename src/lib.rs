//! Construction of SQL function-call nodes for a database-agnostic query tree,
//! together with the timing and counting hooks used around database calls.

pub mod ast;
pub mod connector;
