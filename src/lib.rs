//! Parser for a versioned interface-definition language: schemes of
//! structs, unions, enums, functions and commands, each declared at a major
//! version and refined at minor versions.
//!
//! The input is a flat token stream (`token`); the output is the tree of
//! `ast`. `grammar` states the language as spec functions over tokens,
//! `parser` holds the executable parser proved to compute exactly those
//! functions, and `laws` and `roundtrip` prove properties of the grammar.

pub mod ast;
pub mod grammar;
pub mod laws;
pub mod literal;
pub mod parser;
pub mod roundtrip;
pub mod strlit;
pub mod token;
