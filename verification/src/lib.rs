pub mod text;
pub mod gh;
pub mod ui;
pub mod theme;
pub mod app;
pub mod actions;
pub mod laws;
pub mod keys;
pub mod modal;
pub mod screen;
