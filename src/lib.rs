//! Command-execution core of a shell runtime: native, conditional, bound and
//! closure commands behind one invocation contract, output-type resolution,
//! a registry of builtin commands, and a node-graph serialization protocol.

pub mod value;
pub mod context;
pub mod dict;
pub mod command;
