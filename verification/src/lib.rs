pub mod api;
pub mod config;
pub mod db;
pub mod export;
pub mod models;
pub mod text;
pub mod tui;
