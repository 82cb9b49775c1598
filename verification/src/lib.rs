//! Terminal temperature monitor: the sensor model, its thresholds and the
//! decisions behind what the screen shows, with their contracts.
pub mod app_state;
pub mod input_handler;
pub mod text;
pub mod ui;
pub mod laws;
pub mod event_loop;
