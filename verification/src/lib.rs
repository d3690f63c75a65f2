pub mod combinators;
pub mod lexer;
pub mod parser;
pub mod span;
pub mod token;
