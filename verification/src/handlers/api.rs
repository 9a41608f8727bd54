pub mod alerts;
pub mod groups;
pub mod stats;
