//! Request planning and response shaping for a small HTTP fetch proxy.
//!
//! The library decides everything about a proxied fetch that does not need the
//! network: which method a caller's method name selects, which fixed headers every
//! outbound request carries, and how the outcome of the exchange becomes either a
//! response envelope or an error message.

pub mod method;
pub mod request;
pub mod response;

pub use method::{method_from_upper, select_method, Method};
pub use request::{fixed_headers, plan_request, FetchRequest, Header};
pub use response::{
    conclude, decode_error, is_success_status, transport_error, Exchange, HttpResponse,
};
