//! Credential and session authentication for a habit tracker backend:
//! password digests, signed bearer tokens, the authorization gate and the
//! decisions of registration and login.

pub mod error;
pub mod token;
pub mod password;
pub mod model;
pub mod gate;
pub mod account;
pub mod habit;
