//! Stateless helpers shared by the whole core.

pub mod bit_operations;
