//! Verified core of the vibar status bar.
pub mod intervals;
pub mod text;
pub mod num;
pub mod markup;
pub mod common;
pub mod backlight;
pub mod battery;
pub mod cpu;
pub mod memory;
pub mod tray;
pub mod tray_menu;
pub mod playerctl;
pub mod order;
pub mod pulseaudio;
pub mod exec;
pub mod registry;
pub mod temperature;
pub mod disk;
pub mod clock;
pub mod modules;
pub mod group;
pub mod sway;
pub mod bar;
