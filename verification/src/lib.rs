pub mod account;
pub mod action;
pub mod app;
pub mod endpoint;
pub mod event;
pub mod laws;
pub mod model;
pub mod sync;
pub mod text;
pub mod types;
pub mod views;
