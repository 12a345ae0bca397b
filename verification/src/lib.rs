//! Matching and aggregation core of a filesystem search tool: a pattern is
//! compiled into a name matcher and a content matcher, each visited entry is
//! tested against them, and the matches of all entries are gathered together
//! with counters of the entries processed and the matches found.

pub mod aggregate;
pub mod config;
pub mod name;
pub mod pattern;
pub mod record;
pub mod report;
pub mod scan;
pub mod visit;
