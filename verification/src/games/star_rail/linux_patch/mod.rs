pub mod main_patch;
pub mod status;
