pub mod latency;
pub mod frequency;
pub mod composite;
