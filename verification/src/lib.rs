pub mod app;
pub mod event;
pub mod generator;
pub mod resources;
pub mod save_file;
pub mod text;
pub mod upgrades;
