//! Pagination and extraction core of a bestsellers scraper.
//!
//! The library decides; it never touches a browser, a clock or a file. A
//! caller that owns a page session feeds it what the session returned and
//! carries out the actions it asks for.

/// Application configuration.
pub mod config;

/// Decisions of the scraping process: where to go, what a page yields, and
/// whether another page follows.
pub mod driver;

/// Errors of a scraping run.
pub mod error;

/// Store item model.
pub mod item;

/// The run loop as a state machine.
pub mod run;

/// Text primitives.
pub mod text;
