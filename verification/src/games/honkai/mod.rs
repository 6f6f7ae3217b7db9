pub mod api;
pub mod consts;
pub mod game;
pub mod version_diff;
