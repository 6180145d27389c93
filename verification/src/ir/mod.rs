pub mod aarch64;
pub mod types;
pub mod utils;
pub mod cfg;
pub mod x64;
pub mod x64_decode;
