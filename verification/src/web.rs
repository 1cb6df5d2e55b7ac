pub mod api;
pub mod dashboard;
