pub mod api;
pub mod consts;
pub mod game;
pub mod voice_data;
pub mod repairer;
pub mod version_diff;
