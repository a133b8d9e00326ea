pub mod configuration;
pub mod ids;
pub mod routes;
pub mod telemetry;
pub mod text;
