//! Request planning and response shaping for the Sapling remote API client,
//! together with the server-side suffix query handler's decisions.

pub mod text;
pub mod hex;
pub mod repo_name;
pub mod errors;
pub mod urls;
pub mod batching;
pub mod retry;
pub mod status;
pub mod types;
pub mod lookup;
pub mod config;
pub mod endpoints;
pub mod requests;
pub mod client;
pub mod plans;
pub mod responses;
pub mod suffix_query;
