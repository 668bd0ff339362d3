//! A probabilistic data-corruption engine for filesystem fault injection.
//!
//! The engine holds an ordered list of corruption rules and a path/operation
//! filter. When a hook admits an operation, the engine mutates the byte
//! buffer flowing through that operation in place: each rule fires with a
//! configured probability and overwrites a bounded number of bounded-length
//! byte ranges, either with zeros or with random bytes.

pub mod config;
pub mod filter;
pub mod injector;
mod rng;
