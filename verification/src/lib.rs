pub mod cli;
pub mod crud;
pub mod display;
pub mod laws;
pub mod lifecycle;
pub mod models;
pub mod resolver;
pub mod store;
pub mod text;
pub mod time;
pub mod watch;
