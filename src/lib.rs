//! Hosting layer for native emulation cores: pixel formats and frame
//! conversion, the audio ring buffer, joypad state, the process-wide callback
//! router, session lifecycle decisions, and the catalogue logic around them.

pub mod pixel;
pub mod audio;
pub mod joypad;
pub mod router;
pub mod session;
pub mod search;
pub mod text;
pub mod types;
pub mod romdb;
pub mod hash;
pub mod library;
pub mod input;
pub mod feed;
pub mod dualsense;
pub mod cores;
pub mod navigation;
