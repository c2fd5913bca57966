pub mod repository;
pub mod retention;
