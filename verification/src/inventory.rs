pub mod item;
