//! A typed client core for a paginated REST API.
//!
//! The heart of the crate is the pagination-to-stream adapter: a pull-based
//! state machine that turns any paginated list endpoint into a lazy sequence
//! of items, fetching one page at a time, only on demand.  The adapter's
//! behaviour is specified against a mathematical model of fetch histories
//! (`pagination`) and proved correct.
//!
//! Around the core sit small typed models of a few endpoints (request
//! builders and response parsing) and of the client's error taxonomy.

pub mod client_ext;
pub mod errors;
pub mod laws;
pub mod moderation;
pub mod numfmt;
pub mod pagination;
pub mod pager;
pub mod response;
pub mod schedule;
pub mod search;
pub mod stream;
