pub mod strings;
pub mod paths;
pub mod file_strings;
pub mod version;
pub mod version_scan;
pub mod games;
pub mod genshin;
pub mod installer;
pub mod telemetry;
pub mod text;
pub mod digest;
pub mod repairer;
pub mod honkai;
