//! Setup policy for a GPU device and, optionally, a window's presentation surface.
//!
//! `setup` orders the steps of a headless or a windowed build and names the error of each
//! step that fails; `surface` picks the format and usages a surface is configured with;
//! `config` assembles the whole surface configuration from a surface's capabilities.
pub mod config;
pub mod setup;
pub mod surface;
