//! The logic of a terminal monitor for a fleet of managed instances.

pub mod alarm;
pub mod app;
pub mod clock;
pub mod coordinator;
pub mod detail_screen;
pub mod favorites;
pub mod filters;
pub mod fleet;
pub mod fleet_laws;
pub mod help_screen;
pub mod input;
pub mod instance;
pub mod key_laws;
pub mod laws;
pub mod layout;
pub mod list_screen;
pub mod loading;
pub mod model;
pub mod names;
pub mod order;
pub mod pane;
pub mod picker_screen;
pub mod profiles;
pub mod screen_laws;
pub mod session;
pub mod state_laws;
pub mod status_bar;
pub mod style;
pub mod text;
pub mod text_laws;
pub mod ui;
pub mod update;
pub mod value_laws;
pub mod view_laws;
