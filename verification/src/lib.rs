pub mod cli;
pub mod errors;
pub mod init;
pub mod project;
pub mod text;
pub mod theorems;
pub mod transitions;
pub mod utils;
pub mod workflow;
pub mod world;
