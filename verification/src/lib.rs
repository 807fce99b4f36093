//! A verified user-account backend core: credential validation, password
//! hashing, token issuance and verification, login resolution and
//! role-based access gating.

pub mod email;
pub mod gate;
pub mod login;
pub mod password;
pub mod registration;
pub mod role;
pub mod security;
pub mod store;
pub mod text;
pub mod token;
pub mod username;
pub mod users;
