pub mod input;
pub mod sd;
