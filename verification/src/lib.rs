//! A reusable core for building typed HTTP API clients.
//!
//! Given a base address, an endpoint name and request parameters, the crate
//! assembles an immutable request descriptor, classifies the raw response of
//! one network exchange into a typed success payload or a typed error
//! payload, and resolves errors through a caller-supplied handler. The
//! network transport itself is a collaborator: callers perform the exchange
//! and hand the raw status and body back to the library.

mod endpoint;
mod execute;
mod outcome;
mod params;
mod request;
mod resolve;

pub use endpoint::create_endpoint;
pub use endpoint::spec_resolved;
pub use execute::decode_failure;
pub use execute::decode_success;
pub use execute::request_map;
pub use outcome::RawResponse;
pub use outcome::RequestError;
pub use outcome::TransportFailure;
pub use outcome::is_success_status;
pub use outcome::spec_is_success;
pub use params::ParamSet;
pub use params::build;
pub use params::lemma_build_deterministic;
pub use request::DescriptorModel;
pub use request::Method;
pub use request::Payload;
pub use request::PayloadModel;
pub use request::RequestDefaults;
pub use request::RequestDescriptor;
pub use request::add_header;
pub use request::add_header_if;
pub use request::identity_stage;
pub use request::spec_base_descriptor;
pub use request::spec_with_header;
pub use request::spec_with_payload;
pub use resolve::handle_exchange;
pub use resolve::resolve_error;
