//! A small register machine and the front ends that feed it.
//!
//! `lexer` cuts the text of a program into tokens, `parser` decodes the
//! tokens into instructions and a label table, and `runtime` executes the
//! instructions on a file of typed registers and a byte-addressable variable
//! area. `tokeniser` is the scanner of the structured language. `bytes` holds
//! the encoding of numbers as bytes, `text` a few helpers on characters, and
//! `error` and `errors` what can go wrong.
//!
//! The library computes with integers and truth values only. The registers
//! of the classes `F` and `G` hold IEEE-754 numbers as bit patterns; the
//! library moves and compares them, and asks its caller to do the arithmetic
//! on them and to read them from text.

pub mod bytes;
pub mod error;
pub mod errors;
pub mod lexer;
pub mod parser;
pub mod runtime;
pub mod text;
pub mod tokeniser;
