pub mod config;
pub mod configuration;
pub mod planner;
pub mod http;
pub mod launcher;
pub mod ratelimiter;
pub mod metrics;
pub mod executor;
pub mod scheduler;
pub mod vuser;
pub mod api;
