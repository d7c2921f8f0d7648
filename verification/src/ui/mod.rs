pub mod app;
pub mod layout;
pub mod theme;
pub mod views;
