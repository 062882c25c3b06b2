pub mod loader;

pub use loader::Config;
