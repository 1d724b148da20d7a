//! Weather and rain-radar logic for a terminal client: map tile styles and
//! their URLs, weather code tables, radar request bookkeeping, keyboard
//! handling and panel layout arithmetic.

pub mod config;
pub mod i18n;
pub mod text;
pub mod api;
pub mod app;
pub mod ui;
