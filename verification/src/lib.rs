//! The Lenra command line interface, as a verified library: configuration
//! handling, Docker Compose and Dofigen descriptor generation, template and
//! tag normalisation, app output checking and the interactive terminals'
//! decisions.

pub mod app_checker;
pub mod cli;
pub mod config;
pub mod devtool;
pub mod docker;
pub mod docker_compose;
pub mod dofigen;
pub mod errors;
pub mod git;
pub mod github;
pub mod json;
pub mod keyboard_event;
pub mod lenra;
pub mod matching;
pub mod paths;
pub mod patterns;
pub mod template;
pub mod text;
