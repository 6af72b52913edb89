//! GM command parsing and help for the game server, and the indexing of
//! the excel and talent configs that the server loads.
//!
//! - `text`: whitespace, trimming, words, pieces and decimal numbers.
//! - `command`: the commands that `parse::parse_command` produces.
//! - `field_map`, `args`: reading a command's arguments.
//! - `parse`: `parse_command`.
//! - `help`: the help table and the `help` output.
//! - `talent`, `excel`: config tables.
//! - `laws`: properties that span these functions.
pub mod args;
pub mod command;
pub mod command_laws;
pub mod excel;
pub mod field_map;
pub mod help;
pub mod help_laws;
pub mod laws;
pub mod parse;
pub mod talent;
pub mod text;
pub mod text_laws;
