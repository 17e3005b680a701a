//! Error types of the crate: the accumulated parse-time record
//! ([`input::InputError`]) and the access-time failure ([`access::AccessError`]).

pub mod access;
pub mod input;
