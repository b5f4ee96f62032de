pub mod admin;
pub mod api;
pub mod auth;
pub mod catalog;
pub mod collection;
pub mod config;
pub mod decimal;
pub mod jwt;
pub mod models;
pub mod profile;
