pub mod app_event;
pub mod components;
pub mod display;
pub mod genre_picker;
pub mod laws;
pub mod order;
pub mod search;
pub mod state;
pub mod update;
