pub mod config;
pub mod db;
pub mod oso;
pub mod routes;
pub mod session;
