pub mod routes;
pub mod templates;
