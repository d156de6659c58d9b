//! The capture settings, fixed when the filesystem is built.

use vstd::prelude::*;

verus! {

/// What the encoder is asked to produce and which inputs it listens to.
#[derive(Clone, Copy, Debug, PartialEq, Eq, Structural)]
pub struct Config {
    /// Frame width in pixels.
    pub width: u32,
    /// Frame height in pixels.
    pub height: u32,
    /// Frames per second.
    pub fps: u32,
    /// Kilobits per second.
    pub bitrate: u32,
    /// Audio input selector.
    pub audio_src: u32,
    /// Video input selector.
    pub video_src: u32,
    pub brightness: i32,
    pub contrast: i32,
    pub hue: i32,
    pub saturation: i32,
}

} // verus!
