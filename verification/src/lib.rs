pub mod builder;
pub mod commands;
pub mod error;
pub mod file;
pub mod log;
pub mod patching;
pub mod utils;
pub mod version;
