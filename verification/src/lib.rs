//! Authenticated playlist clients for Spotify and YouTube.
//!
//! The crate's core is an OAuth2 client-credentials token cache with exact
//! expiry semantics — a cached token is served strictly before
//! `issued_at + lifetime`, and concurrent callers serialized behind the
//! cache's lock trigger at most one refresh — and a pair of provider
//! clients that normalize each provider's wire responses into one
//! canonical track/playlist representation.
//!
//! Every REST call splits into a verified half (build the request, read
//! status and body into the canonical result) and an I/O half that a
//! surrounding program supplies: the functions here take the HTTP status
//! and body text as plain values and never perform I/O themselves.

pub mod auth;
pub mod canon;
pub mod json;
pub mod spotify;
pub mod text;
pub mod youtube;
