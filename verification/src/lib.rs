pub mod db;
pub mod errors;
pub mod models;
pub mod rate_lim;
pub mod text;
