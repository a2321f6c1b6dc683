//! Lifts HashLink bytecode back to a Haxe-like syntax tree.
//!
//! The input is a bytecode module that is already read: pools of constants, types and
//! functions, each function with its registers and instructions ([`types`], [`opcodes`]).
//! The output is a syntax tree of classes, methods, statements and expressions ([`ast`]).
//!
//! The decompiler makes one pass over the instructions of a function ([`lifter`]). It keeps
//! the expression that each register stands for ([`state`]), rebuilds loops, branches and
//! switches from the jumps ([`scopes`]), and rewrites the statements that it is left with
//! into the idioms of the source ([`post`]). A class is its fields and the functions bound
//! to it, each decompiled ([`class`]).
//!
//! What the decompiler computes is stated once, on its own, in [`model`]; [`validity`]
//! states what it asks of the bytecode, with the checks that tell whether a module meets
//! it. What holds of every function that is decompiled is proved in [`invariants`],
//! [`declarations`] and [`idempotence`].
//!
//! [`fmt`] and [`listing`] write the names, types and instructions of the bytecode as text.

pub mod ast;
pub mod class;
pub mod declarations;
pub mod fmt;
pub mod idempotence;
pub mod invariants;
pub mod lifter;
pub mod listing;
pub mod model;
pub mod opcodes;
pub mod post;
pub mod scopes;
pub mod state;
pub mod types;
pub mod validity;
