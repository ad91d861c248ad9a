pub mod config;
pub mod ogs;
pub mod session;
pub mod state;
