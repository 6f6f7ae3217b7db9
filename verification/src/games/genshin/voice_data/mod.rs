pub mod locale;
pub mod package;
