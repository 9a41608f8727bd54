pub mod alerts;
pub mod groups;
pub mod projects;
pub mod rules;
