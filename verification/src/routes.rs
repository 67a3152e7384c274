//! The request and response bodies of the service's endpoints and the
//! decisions that their handlers make.

pub mod upload;
pub mod account_book;
pub mod department;
pub mod permission;
pub mod role;
pub mod user;
pub mod user_group;
pub mod auth;
pub mod session;
