//! The web-facing rules: who may do what, how errors are reported, and the
//! checks that route handlers apply to submitted forms.

pub mod authentication;
pub mod routes;
pub mod templates;
pub mod web_result;
