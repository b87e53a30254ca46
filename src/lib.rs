//! Request construction and response interpretation for a push-notification
//! gateway spoken to over HTTP/2.
//!
//! The library turns a finished [`Notification`] into the request the gateway
//! expects (path, headers and JSON body) and maps the gateway's reply to the
//! notification's identifier or a structured error.

pub mod encoding;
pub mod error;
pub mod gateway;
pub mod ident;
pub mod laws;
pub mod request;
pub mod types;

pub use error::{interpret_response, outcome, ApiError, SendError, SetupError};
pub use gateway::{gateway, APN_URL_DEV, APN_URL_PRODUCTION};
pub use request::{build_request, device_path, prepare_request, request_body, request_headers};
pub use request::{Header, Request};
pub use types::{Notification, Priority};
