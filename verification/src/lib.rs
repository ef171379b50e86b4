//! Front end of a small ahead-of-time compiler for a class-based source
//! language: source text is turned into a position-tagged token stream, and
//! an already-parsed module tree is annotated with resolved types, attribute
//! slots, and class-qualified call targets for the code generator.

pub mod token;
pub mod lex_spec;
pub mod lexer;
pub mod strmap;
pub mod ast;
pub mod sem_spec;
pub mod semantic_analyzer;
pub mod laws;
