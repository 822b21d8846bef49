pub mod maps;
pub mod tile;
