pub mod patch;
pub mod script;
pub mod patches;
pub mod applier;
