//! Decision core of a crash-resumable crawler that keeps a local replica of a
//! relay chain's and a parachain's finalized headers and storage changes.
//!
//! The crate holds every rule of the crawler as verified functions on plain
//! values. Network calls, store access and sleeping belong to the host, which
//! performs the action that a function here asks for and hands back the
//! outcome.
//!
//! - [`metadata`]: the record of progress and its invariant.
//! - [`grab`]: the crawler's cursors, what each grabber may fetch, and how
//!   the record moves as items arrive; [`commit_laws`] states what a
//!   crash leaves intact.
//! - [`check`]: the verify and repair pass, a state machine; [`check_laws`]
//!   and [`repair_laws`] state what holds of every pass; [`report`] writes
//!   its summary and its errors.
//! - [`crawl`]: the order of the stages of the crawl loop.
//! - [`observed`]: the numbers that the crawler shows to its host.
//! - [`header`], [`config`], [`text`]: headers and their decoding, the
//!   options, decimal numerals.
//! - [`api`] and [`check_system`]: the rules of two companions of the
//!   crawler, the worker manager's management interface and the contract
//!   that probes the system.

pub mod api;
pub mod check;
pub mod check_laws;
pub mod check_system;
pub mod commit_laws;
pub mod config;
pub mod crawl;
pub mod grab;
pub mod header;
pub mod metadata;
pub mod observed;
pub mod repair_laws;
pub mod report;
pub mod text;
