//! A request-to-evaluation gateway: it takes a JSON-encoded request holding an
//! untrusted script snippet, a mapping of named variables and an optional
//! timeout, prepares a sandboxed evaluation unit that exposes exactly those
//! variables to the snippet, and encodes the evaluation's outcome back to JSON.
//!
//! The interpreter itself is an outside capability; this crate holds the
//! verified pipeline around it: request parsing, binding resolution, wrapper
//! synthesis and response encoding.
pub mod bindings;
pub mod errors;
pub mod json;
pub mod pipeline;
pub mod request;
pub mod response;
pub mod wrapper;

pub use bindings::get_argument_list;
pub use errors::BindingError;
pub use errors::EvalError;
pub use errors::GatewayError;
pub use errors::ParseError;
pub use errors::RenderError;
pub use pipeline::prepare;
pub use pipeline::Prepared;
pub use request::parse_request;
pub use request::Request;
pub use response::encode_response;
pub use wrapper::render_script;
pub use wrapper::synthesize;
