pub mod adapter_laws;
pub mod adapters;
pub mod auth;
pub mod base64_text;
pub mod bridge;
pub mod bridge_laws;
pub mod clap_layout;
pub mod cli;
pub mod cli_laws;
pub mod error;
pub mod flow;
pub mod flow_laws;
pub mod http;
pub mod json;
pub mod json_laws;
pub mod language;
pub mod llm;
pub mod llm_laws;
pub mod outcome_laws;
pub mod page;
pub mod registry;
pub mod report;
pub mod route;
pub mod route_laws;
pub mod server;
pub mod server_laws;
pub mod step_effects;
pub mod step_laws;
pub mod steps;
pub mod text;
pub mod text_laws;
pub mod thinking;
pub mod view_laws;
