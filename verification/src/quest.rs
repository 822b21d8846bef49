pub mod quest;
