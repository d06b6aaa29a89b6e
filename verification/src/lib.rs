//! A software CPU: a bytecode interpreter with a two-slot arithmetic-logic
//! unit, a growable word-addressed memory, and debugger primitives
//! (breakpoints, single-step, pause/continue, status introspection), driven
//! step by step by an embedding host.

#![allow(non_snake_case)]

pub mod alu;
pub mod bits;
pub mod host;
pub mod memory;
pub mod processor;
pub mod program;
