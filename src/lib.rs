//! Compile-time configuration for bundling code that runs in the edge runtime:
//! constant definitions, free-variable substitutions, module resolution
//! options and the chunk output layout.

pub mod chunking;
pub mod compile_time_info;
pub mod defines;
pub mod env_map;
pub mod free_vars;
pub mod mode;
pub mod resolve;
