pub mod argument_parser;
pub mod emitter;
pub mod instruction;
pub mod reporter;
pub mod span;
pub mod text;
pub mod tokenizer;
