pub mod art;
pub mod colors;
pub mod compose;
pub mod decorate;
pub mod cli;
pub mod facts;
pub mod render;
pub mod text;
