//! Verified core of a spectator client for a multiplayer rhythm game.
//!
//! - `anim`, `text`, `tween`: keyframe animations, text animation, easing ids
//! - `judge`, `engine`, `effects`: notes, the judge state machine and the
//!   judge pass of a frame, and the hit-sounds and particles it sets off
//! - `clock`, `scene`, `touch`, `viewport`: one player's scene, its clock and
//!   playback rules, its touch overlay and its letterboxed viewport
//! - `player`: the standalone chart player
//! - `session`: the registry of scenes, live events, commands, heartbeat
//! - `cache`: the chart cache's file layout and decisions
//! - `pbc`: the reader of the binary chart format
//! - `bpm`, `info`, `particle`: beat positions, chart metadata and records
//!
//! All times inside the library are integer milliseconds.

pub mod anim;
pub mod bpm;
pub mod cache;
pub mod clock;
pub mod effects;
pub mod engine;
pub mod info;
pub mod judge;
pub mod particle;
pub mod pbc;
pub mod player;
pub mod scene;
pub mod session;
pub mod text;
pub mod touch;
pub mod tween;
pub mod viewport;
