pub mod register;
pub mod starts_with;
pub mod machine_instruction;
pub mod label;
pub mod error;
pub mod intermediate_assembly;
pub mod binary_program;
pub mod assembly_instruction;
pub mod assembly_line;
pub mod lexer;
pub mod instruction_parser;
pub mod assemble;
pub mod control;
