pub mod actions;
pub mod app;
pub mod cli;
pub mod create;
pub mod discovery;
pub mod laws;
pub mod model;
pub mod oslog;
pub mod paths;
pub mod table;
pub mod text;
