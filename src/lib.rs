pub mod cli;
pub mod network;
pub mod text;
pub mod tui;
