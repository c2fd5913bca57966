pub mod insert_engine;
