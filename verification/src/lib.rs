pub mod auth_models;
pub mod auth_service;
pub mod contributions;
pub mod errors;
pub mod tontine;
pub mod tontine_members;
pub mod tontine_rounds;
pub mod transactions;
pub mod users;
