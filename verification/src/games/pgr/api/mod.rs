pub mod game;
pub mod resource;
