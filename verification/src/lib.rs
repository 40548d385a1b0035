//! Verified core of the ListaIsto shopping-list backend.
pub mod auth;
pub mod config;
pub mod db;
pub mod handlers;
pub mod hashing;
pub mod mailer;
pub mod random;
pub mod templates;
pub mod text;
pub mod time;
