//! Verified decision logic of a real-time window magnifier.
pub mod actions;
pub mod anchor;
pub mod backend;
pub mod chain;
pub mod controls;
pub mod crop;
pub mod diagnostics;
pub mod dialogs;
pub mod display;
pub mod filters;
pub mod gpu;
pub mod handoff;
pub mod help;
pub mod hotkey_dispatch;
pub mod hotkey_editor;
pub mod hotkeys;
pub mod housekeeping;
pub mod images;
pub mod language;
pub mod launch;
pub mod layout;
pub mod locale_menu;
pub mod markup;
pub mod meter;
pub mod notices;
pub mod options;
pub mod overlay;
pub mod panel;
pub mod presets;
pub mod probe;
pub mod redraw;
pub mod resolution;
pub mod selection;
pub mod session;
pub mod startup;
pub mod stats;
pub mod text;
pub mod topmost;
pub mod transition;
pub mod utf16;
