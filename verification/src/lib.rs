//! Account provisioning for a loyalty-programme backend: the request
//! envelope, the interpretation of the backend's answers, the extraction of
//! the request-authenticity token from a session cookie, and the
//! conversation state machine that carries an operator through onboarding.

pub mod api;
pub mod cache;
pub mod csrf;
pub mod db;
pub mod error;
pub mod login;
pub mod machine;
pub mod onboarding;
pub mod outside;
pub mod protocol;
pub mod render;
pub mod search;
pub mod secrets;
pub mod text;
