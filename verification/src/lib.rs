pub mod hash_generator;
pub mod models;
pub mod responses;
pub mod validation;
pub mod password;
pub mod token;
pub mod ticket_counter;
pub mod user_routes;
pub mod auth;
pub mod url_routes;
