//! Core of a board-game re-ranking tool: community ratings are re-aggregated
//! while ratings from implausible ("overhyped") raters are discarded.
//!
//! This crate holds the decision logic of the stabilization engine — the
//! running-average accumulator, the adaptive backoff token, rater trust
//! classification, the per-game page loop and the orchestrator's drain loop —
//! all verified. The surrounding binary performs the network fetches, the
//! store reads and writes, the thread pool and the terminal output, and asks
//! this crate what to do at every decision point.
//!
//! Ratings are carried as integers in hundredths of a rating point (a rating
//! of `7.5` is `750`), so every fold is exact and the running mean of a game
//! is the stored rating total divided by the stored vote count.

use vstd::prelude::*;

pub mod average;
pub mod backoff;
pub mod orchestrate;
pub mod trust;
pub mod worker;

verus! {

/// A rater is identified by name alone; the trust flag kept for a rater
/// lives in the store, not in this type.
pub type User = String;

/// A board game under re-evaluation.
///
/// `rating` is the exact sum, in hundredths of a rating point, of all trusted
/// ratings folded so far; `votes` counts them, so the running trusted average
/// is `rating / votes`. `page` is the next rater page to fetch and only ever
/// advances when a page was processed completely. The three `bgg_` fields are
/// provenance copied at ingestion time and used only for reporting; the two
/// rating-valued ones are carried in hundredths as well.
#[derive(Debug, PartialEq, Clone)]
pub struct Game {
    pub id: u32,
    pub name: String,
    pub rating: u64,
    pub votes: u32,
    pub page: u32,
    pub bgg_num_votes: u32,
    pub bgg_geek_rating: u32,
    pub bgg_avg_rating: u32,
}

/// The subcommands the surrounding binary dispatches on.
#[derive(Debug, Clone, Copy, PartialEq, Eq, Structural)]
pub enum Cli {
    /// Create the initial store and configuration files.
    New,
    /// Print the ranked game list once every game is stable.
    Report,
    /// Ingest the current game list from the remote source.
    Pull,
    /// Run the stabilization engine until every game converges.
    Balance,
    /// Mark long-settled raters for re-evaluation.
    Review,
}

/// Run-wide settings, loaded once and copied into every worker.
#[derive(Debug, Clone, Copy)]
pub struct Config {
    /// Minimum external vote count a game needs to be ingested.
    pub limit: u32,
    /// Consecutive-failure budget of each worker's backoff token.
    pub attempts: u32,
    /// Milliseconds of delay added per failure level.
    pub delay: u32,
    /// Size of the worker pool.
    pub threads: usize,
}

impl Config {
    pub fn new(limit: u32, attempts: u32, delay: u32, threads: usize) -> (c: Config)
        ensures
            c.limit == limit,
            c.attempts == attempts,
            c.delay == delay,
            c.threads == threads,
    {
        Config { limit, attempts, delay, threads }
    }
}

/// Re-opening long-settled raters for re-evaluation is outside this core:
/// the pass touches no state and reports success.
pub fn review_users() -> (r: Result<(), String>)
    ensures
        r is Ok,
{
    Ok(())
}

} // verus!
