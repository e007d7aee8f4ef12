pub mod json;
pub mod date;
pub mod model;
pub mod http;
pub mod requests;
pub mod responses;
pub mod laws;
