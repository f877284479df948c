//! Client core for the Finnish transparency register's open-data API.
//!
//! The library covers everything about a fetch that is not the network
//! itself: building the three endpoint URLs, classifying an HTTP status,
//! parsing a response body as JSON, and rendering the three error kinds
//! as messages. A host program performs the actual GET and hands the
//! outcome to [`fetch::interpret_outcome`].

pub mod decimal;
pub mod endpoints;
pub mod fetch;
pub mod json;

pub use decimal::u16_to_decimal;
pub use endpoints::API_BASE;
pub use endpoints::Operation;
pub use endpoints::operation_path;
pub use endpoints::operation_url;
pub use fetch::FetchError;
pub use fetch::FetchOutcome;
pub use fetch::evaluate_response;
pub use fetch::interpret_outcome;
