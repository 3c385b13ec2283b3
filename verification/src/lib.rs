pub mod models;
pub mod routes;
pub mod utilities;
