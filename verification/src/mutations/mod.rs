pub mod parties;
pub mod relations;
pub mod works;
