//! Verified core of a server that sets up Express projects: project naming,
//! the features a project records, the package managers it can use, and the
//! code and configuration files it writes.
pub mod text;
pub mod paths;
pub mod services;
pub mod controllers;
