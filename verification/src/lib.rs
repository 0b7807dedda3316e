pub mod settings;
pub mod syntax;
pub mod text;
pub mod writers;
pub mod parser;
pub mod formatter;
