//! Page fetching helpers of a web crawler: redirect detection, body
//! collection, spilling large bodies to disk, waiting for a browser page to
//! settle, concurrency limits per domain and per job, and crawl control
//! messages.  The network, the browser and the file system are driven by the
//! caller; this crate decides what to do with what they report.

pub mod body;
pub mod chrome;
pub mod control;
pub mod limits;
pub mod page_load;
pub mod redirect;
pub mod spool;
pub mod strings;
