pub mod command_line;
pub mod formatting;
pub mod general;
