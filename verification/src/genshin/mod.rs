pub mod consts;
pub mod json_schemas;
pub mod game;
pub mod voice_data;
pub mod telemetry;
pub mod linux_patch;
