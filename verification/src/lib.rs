//! Verified core of VES, a retro game toolkit: 2D geometry in "artwork space", indexed surfaces
//! and the order in which their pixels are visited, sprite and palette data, decoding of SNES
//! object data, a de-duplicating value cache, the art model of named entities and animations,
//! movie playback and the state machines behind the viewer's controls, drawing tiles onto the
//! prototype core's screen buffer, and the core's handling of log calls from the game.

pub mod unit;
pub mod geom;
pub mod text;
pub mod surface;
pub mod sprite;
pub mod snes;
pub mod cache;
pub mod controls;
pub mod movie;
pub mod playback;
pub mod looping;
pub mod logging;
pub mod render;
pub mod style;
pub mod mesen;
pub mod entities;
pub mod app_log;
pub mod host;
