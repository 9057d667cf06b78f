pub mod dom;
pub mod parser;
pub mod tokenizer;
