//! Building blocks of an Ethereum account and transaction fetcher: query
//! templating, the rate-limited paginated fetch loop, storage settings and
//! the SQL text and CSV rows that the storage sinks write.
pub mod config;
pub mod fetch;
pub mod query;
pub mod sink;
pub mod template;
