pub mod batch;
pub mod brain_api;
pub mod config;
pub mod config_dict;
pub mod database;
pub mod entity;
pub mod middleware;
pub mod parameter;
pub mod progress;
pub mod response;
pub mod session;
pub mod text;
pub mod workflow;
