pub mod text;
pub mod fuzzer;
pub mod web;
