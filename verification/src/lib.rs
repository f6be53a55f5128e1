pub mod acme;
pub mod api;
pub mod auth;
pub mod clock;
pub mod cmd_delivery;
pub mod config;
pub mod db;
pub mod error;
pub mod glob;
pub mod json;
pub mod labels;
pub mod liveliness;
pub mod metrics;
pub mod rtt_cache;
pub mod text;
pub mod tls;
