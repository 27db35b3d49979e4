//! Core rules of the offline-first ticketing desktop application.

pub mod config;
pub mod domain;
pub mod error;
pub mod repository;
pub mod service;
pub mod sync;
pub mod text;
