//! Access logging for an HTTP request/response cycle, as plain decisions.
//!
//! A host hands this crate a snapshot of each request, the status of the
//! response, the events of the response body as it drains, and the instant
//! its clock reads at each of them. The crate answers with the structured
//! records that are to be written: at most one diagnostic record when the
//! response carries an error, and exactly one access record once the body
//! has ended or has been given up, unless the request's path is excluded.

pub mod clock;
pub mod cycle;
pub mod field_names;
pub mod logger;
pub mod middleware;
pub mod record;
pub mod request;
pub mod stream;
pub mod text;

pub use clock::Timestamp;
pub use field_names::FieldNames;
pub use logger::StructuredLogger;
pub use middleware::{LoggerResponse, StructuredLoggerMiddleware};
pub use record::{Field, FieldValue, Level, LogRecord};
pub use request::{RequestHead, ResponseHead};
pub use stream::{BodyPoll, Phase, StreamLog};
