pub mod chat;
pub mod events;
pub mod logs;
pub mod screens;
