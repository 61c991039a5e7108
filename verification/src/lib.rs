//! Verified core of the Cardwire tray applet and its settings window.
pub mod applet;
pub mod daemon;
pub mod gui;
pub mod mode;
pub mod sort;
pub mod text;
pub mod tray;
pub mod view;
