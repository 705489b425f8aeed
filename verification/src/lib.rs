//! Event-to-vibration logic of niri-sense: the configuration model and its
//! TOML reader, the mapping of niri events to vibrations with its repeat
//! cooldown, device selection and the command language of the prompt.

pub mod util;
pub mod text;
pub mod toml_model;
pub mod config;
pub mod integration;
pub mod repl;
pub mod sense_app;
