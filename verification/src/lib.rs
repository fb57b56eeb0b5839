//! Headless login client for the Quantic Telecom captive portal.
//!
//! The crate resolves credentials from an INI-style configuration text and
//! command-line overrides, extracts the anti-forgery token from the portal's
//! login page, and drives the four-step login sequence (fetch, extract,
//! submit, verify) as a verified state machine. Network transport and file
//! access live outside the library; callers feed page bodies and transport
//! outcomes in as events and perform the actions handed back.

pub mod config;
pub mod html;
pub mod portal;
