pub mod events;
pub mod issues;
pub mod releases;
