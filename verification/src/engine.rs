//! Engine API extensions: payload types and their validation.
pub mod types;
pub mod validator;
