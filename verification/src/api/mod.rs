//! The client layer: queries, pagination, retries and the rest of the
//! request/response handling TMF630 prescribes.
pub mod apis;
pub mod auth;
pub mod client;
pub mod conditional;
pub mod error;
pub mod hub;
pub mod link;
pub mod page;
pub mod patch;
pub mod query;
pub mod retry;
pub mod transport;

pub use apis::TmfApi;
pub use auth::{Auth, ClientCredentials};
pub use client::same_origin;
pub use conditional::{EntityTag, Tagged};
pub use error::Error;
pub use hub::{Hub, HubCreate};
pub use link::next_link;
pub use patch::Patch;
pub use page::{paginate, Page, PageRequest, PageStream, Step, DEFAULT_PAGE_SIZE};
pub use query::{FilterOp, Params, Query};
pub use retry::{RetryPolicy, RetryRun, RetryStep, RetryTransport, TokioSleeper};
pub use transport::{Method, TmfRequest, TmfResponse, TransportError};
