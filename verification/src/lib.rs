pub mod app;
pub mod linux;
pub mod os;
pub mod text;
pub mod tui;
pub mod windows;
