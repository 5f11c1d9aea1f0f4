pub mod instruction_parser;

pub use instruction_parser::parse_instruction;
