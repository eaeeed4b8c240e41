//! A small dynamically-typed scripting language: tokenizer, parser and
//! tree-walking evaluator.
//!
//! A source text is split into tokens (`lexer`), the tokens are parsed into
//! statements (`grammar`, `parser`), and the statements are evaluated in an
//! environment (`semantics`, `evaluator`). `semantics` and `grammar` define
//! what the language means; `evaluator` and `parser` compute it, and every
//! function is proved to compute what the definition says. `laws` holds
//! what was proved of the definitions themselves.
//!
//! The library neither reads nor writes anything, asks no clock and does no
//! floating-point arithmetic. What a program prints is collected in its
//! `session`; what it needs from outside is asked of the host through the
//! session's requests and answers.

pub mod ast;
pub mod builtins;
pub mod diagnostics;
pub mod environment;
pub mod evaluator;
pub mod grammar;
pub mod laws;
pub mod lexer;
pub mod libraries;
pub mod natives;
pub mod packages;
pub mod parser;
pub mod semantics;
pub mod session;
pub mod text;
pub mod utils;
pub mod values;

use vstd::prelude::*;

verus! {

/// The version of the interpreter.
pub const VERSION: &'static str = "2.2.0";

} // verus!
