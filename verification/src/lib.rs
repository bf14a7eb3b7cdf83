//! The core of a link shortener: validation of targets, short codes drawn
//! from fresh record identifiers, the capacity guard, creation with a bounded
//! number of retries, and a link store held in memory.
//!
//! A store that lives elsewhere is driven through the steps of
//! [`allocation`]: the caller asks its store and hands each answer back.

pub mod allocation;
pub mod env_config;
pub mod error;
pub mod links_db;
pub mod model;
pub mod pattern;
pub mod short_code;
