pub mod retry;
pub mod openrouter;
