pub mod pipeline;
pub mod timing;
pub mod obs_mapping;
