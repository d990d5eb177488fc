//! Trust boundary and content-integrity rules of a small blogging service:
//! bounded text, credential hashing, signed session tokens, the login guard,
//! ownership checks and the append-only history of a post.

pub mod api;
pub mod auth;
pub mod blog;
pub mod bounded;
pub mod config;
pub mod follows;
pub mod history;
pub mod ident;
pub mod logger;
pub mod model;
pub mod password;
pub mod policy;
pub mod token;
