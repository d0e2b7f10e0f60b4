//! Sequential HTTP health checks for a named deployment environment.
//!
//! The library holds the verified logic: parsing the environment token,
//! resolving the fixed list of URLs to probe for that environment, and
//! rendering each check's outcome as the line that is printed. The actual
//! HTTP requests are network I/O and live in the surrounding binary.

pub mod environment;
pub mod report;
pub mod resolver;
