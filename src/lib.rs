//! Weather data for a terminal dashboard: the weather-code catalog, the
//! decoding of forecast responses, and the decisions of the event loop.

pub mod args;
pub mod catalog;
pub mod json;
pub mod openmeteo;
pub mod app;
pub mod event;
pub mod render;
