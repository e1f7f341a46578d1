pub mod applock;
pub mod biometric;
pub mod call_popup;
pub mod lifecycle;
pub mod text;
pub mod tray;
pub mod window;
