//! Harborz: the verified core of a lightweight music player.
pub mod decimal;
pub mod util;
pub mod playback;
pub mod paths;
pub mod song;
pub mod html;
pub mod metadata;
pub mod merge;
pub mod now_playing;
pub mod download;
pub mod pages;
pub mod import;
