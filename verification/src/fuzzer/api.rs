pub mod dtos;
pub mod routes;
