pub mod commands;
pub mod engine;
pub mod order;
pub mod text;
