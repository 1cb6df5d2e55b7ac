pub mod auth;
pub mod jobs;
pub mod test_routes;
