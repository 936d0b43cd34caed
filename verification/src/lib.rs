pub mod clock;
pub mod command;
pub mod config;
pub mod entity;
pub mod event;
pub mod handler;
pub mod password;
pub mod pipeline;
pub mod settings;
pub mod store;
pub mod user_repository;
pub mod user_security_repository;
