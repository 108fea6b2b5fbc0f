//! A Prometheus exporter for deduplicating backup repositories managed by
//! borg. On each scrape the configured repositories are queried through the
//! external `borg` tool, the returned status document is parsed, its
//! last-modified timestamp is normalized to Unix epoch seconds, and a fixed
//! table of metrics is rendered in the Prometheus exposition text format.

pub mod config;
pub mod parse;
pub mod render;
pub mod scrape;
pub mod timestamp;

pub use config::Config;
pub use parse::BorgResponse;
pub use parse::BorgResponseCache;
pub use parse::BorgResponseCacheStats;
pub use parse::BorgResponseRepository;
pub use parse::ParseError;
pub use parse::parse;
pub use render::render_status;
pub use scrape::classify_query_output;
pub use scrape::repo_label;
pub use scrape::repo_metrics;
pub use scrape::scrape_on_event;
pub use scrape::scrape_start;
pub use scrape::QueryEvent;
pub use scrape::QueryVerdict;
pub use scrape::ScrapeAction;
pub use scrape::ScrapeError;
pub use scrape::ScrapeState;
pub use scrape::RETRY_DELAY_SECS;
pub use timestamp::normalize;
pub use timestamp::normalize_with_offset;
pub use timestamp::DateTimeParts;
pub use timestamp::TimestampError;
