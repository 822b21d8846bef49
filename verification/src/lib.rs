pub mod entities;
pub mod game;
pub mod inventory;
pub mod maps;
pub mod quest;
pub mod text;
pub mod ui;
