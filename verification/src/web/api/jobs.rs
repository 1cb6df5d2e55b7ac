pub mod applications;
pub mod dtos;
