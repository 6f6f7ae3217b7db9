pub mod api;
pub mod version_diff;
pub mod repairer;
