pub mod consts;
pub mod json_schemas;
pub mod game;
pub mod telemetry;
pub mod repairer;
pub mod linux_patch;
