pub mod consts;
pub mod game;
pub mod version_diff;
pub mod voice_data;
pub mod linux_patch;
pub mod telemetry;
