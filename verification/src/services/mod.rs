pub mod _mapping;
pub mod _packages;
pub mod _project;
