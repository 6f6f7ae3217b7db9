pub mod cdn;
pub mod game;
pub mod resource;
