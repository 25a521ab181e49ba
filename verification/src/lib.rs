//! Verified core of the shorts generator desktop application.

pub mod text;
pub mod errors;
pub mod numbers;
pub mod config;
pub mod hex;
pub mod licensing;
pub mod auth_worker;
pub mod pipeline;
pub mod generate;
pub mod runs;
pub mod tool_resolver;
pub mod process_supervisor;
pub mod bridge;
pub mod python_runtime;
pub mod muapi;
pub mod json;
pub mod highlights;
pub mod provider_json;
pub mod api_profiles;
pub mod admin;
pub mod privacy;
pub mod health;
pub mod dotenv;
pub mod secret_store;
pub mod fs_output;
pub mod runtime_paths;
