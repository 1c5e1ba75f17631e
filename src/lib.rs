//! Audits repository secrets against a rotation policy and decides how each
//! verdict is reported.

pub mod config;
pub mod error;
pub mod github_api;
pub mod notifier;
pub mod observer;
pub mod text;
pub mod validator;
