//! The request-handling rules of a chat server: chat membership rules, the
//! error-to-response mapping, the sign-up and sign-in replies and the
//! server-time header, each stated in its contract.
pub mod decimal;
pub mod error;
pub mod chat;
pub mod auth;
pub mod server_time;
pub mod laws;
