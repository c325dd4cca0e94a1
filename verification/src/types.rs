//! Typed configuration sections and the helpers that belong to them.

pub mod battery;
pub mod brightness;
pub mod calendar;
pub mod desktop_widgets;
pub mod dock;
pub mod hooks;
pub mod hotcorners;
pub mod nightlight;
pub mod notification;
pub mod osd;
pub mod storage;
pub mod weather;
pub mod widget_setting_value;
pub mod widget;
pub mod plugins;
pub mod shadow;
pub mod control_center;
pub mod shell;
pub mod theme;
pub mod wallpaper;
pub mod config;
pub mod idle;
pub mod keybinds;
pub mod bar;
pub mod bar_config;
