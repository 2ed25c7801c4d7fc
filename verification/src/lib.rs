//! Core of a breadth-first word-harvesting crawler: a URL state store with a
//! five-state lifecycle, a token-bucket rate limiter, a host-based site
//! policy, per-visit bookkeeping, depth-round orchestration decisions, and a
//! resumable snapshot of a run.

pub mod cli;
pub mod crawl;
pub mod doc_queue;
pub mod error;
pub mod extract;
pub mod filter;
pub mod limiter;
pub mod site;
pub mod state;
pub mod urldb;
pub mod urls;
pub mod utils;
pub mod worddb;
