//! The verified core of a live, interactive wallpaper player: its clock arithmetic, the
//! player error codes, the vertex layout builder, the uniform storage, the wallpaper
//! configuration model, the focus fade and pointer handling, and log levels.
pub mod time;
pub mod error;
pub mod vertex;
pub mod uniforms;
pub mod gl;
pub mod render;
pub mod text;
pub mod fade;
pub mod pipeline;
pub mod config;
pub mod player;
pub mod window;
pub mod log;
