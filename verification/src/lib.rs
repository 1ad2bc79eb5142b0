//! Monitoring of AI model providers: configuration, the requests that are sent
//! to each provider, the reading of their model catalogues, the records kept of
//! each check, and the pages that show them.

pub mod text;
pub mod json;
pub mod config;
pub mod providers;
pub mod catalog;
pub mod templates;
pub mod pages;
