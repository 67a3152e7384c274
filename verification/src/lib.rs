//! Core logic of an account-book web service: encodings and digests used by
//! the authentication flow, permission checks on sessions, the upload form
//! protocol, filter translation, error reporting and the SQL text that the
//! schema migrations issue.

pub mod codec;
pub mod keys;
pub mod utils;
pub mod enums;
pub mod migration;
pub mod response;
pub mod rest;
pub mod error;
pub mod session;
pub mod routes;
pub mod dto;
pub mod extractors;
pub mod group;
pub mod user;
pub mod auth;
pub mod settings;
pub mod info;
