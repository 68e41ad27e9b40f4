//! A language engine that turns any byte string into a picture-describing
//! expression tree: a total tokenizer, a total precedence-climbing parser with
//! a seeded generation fallback, a retry loop that rejects flat pictures, the
//! constant folder with its algebraic identities, and the integer logic of
//! picture sizes and bands. Evaluating a tree needs binary64 arithmetic and is
//! left to the caller, which hands the folder its evaluations as functions.
pub mod ast;
pub mod choice;
pub mod fold;
pub mod lexer;
pub mod parser;
pub mod signature;
pub mod sizes;
pub mod text;
