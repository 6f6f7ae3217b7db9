pub mod package;
