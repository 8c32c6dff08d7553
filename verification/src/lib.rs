//! Resolution of browser cookie sources and selection of the cookies that
//! belong on an outgoing request.
//!
//! The crate decides; its caller looks and reads. What the crate needs to
//! know about the machine arrives as plain values (`HostFacts`, the outcome
//! of a cookie-store read), and what has to be looked for or read is handed
//! out as plain values (`ProfilePath`, `ReadRequest`). The one thing it asks
//! of another crate is the split of a host name at its public suffix.
//!
//! - `browser`: the supported browsers, their names and their priority.
//! - `host`: the report on the machine.
//! - `strategy`: where each browser keeps its cookies, and the framing of a
//!   read.
//! - `manager`: the three ways of binding a browser.
//! - `matcher`: whether a cookie belongs on a request.
//! - `jar`: the header value for a request.
//! - `error`: the failures and their explanations.
//! - `cookie`, `request`, `text`: the records and the text operations that
//!   the rest is built on.

pub mod browser;
pub mod cookie;
pub mod error;
pub mod host;
pub mod jar;
pub mod manager;
pub mod matcher;
pub mod request;
pub mod strategy;
pub mod text;
