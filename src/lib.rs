//! A small URL-shortening service core: who may create a short link, how
//! slugs and owner secrets are minted, and what each request answers.
//!
//! Transport, storage and the record encoding live with the binary; this
//! library decides, and proves what it decides.

pub mod auth;
pub mod ident;
pub mod service;
