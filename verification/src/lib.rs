pub mod autostart;
pub mod bmp;
pub mod decimal;
pub mod power;
pub mod state;
pub mod tray;
