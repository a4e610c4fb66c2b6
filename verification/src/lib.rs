pub mod grammar;
pub mod laws;
pub mod parser;
