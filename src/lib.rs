//! Typed capability bindings: resolving a named host object from an
//! invocation environment, checking its runtime type, and the decisions
//! around an authenticated fetch made through it.

pub mod certificate;
pub mod environment;
pub mod fetch;
pub mod laws;
pub mod response;

pub use environment::{is_instance, resolve, BindingError, Environment, HostObject, ObjectModel};
pub use certificate::MtlsCertificate;
pub use fetch::{finish_fetch_native, finish_fetch_standard, FetchError, HostCall, Request, RequestOptions};
pub use response::{adapt_native, adapt_standard, AdaptError, NativeResponse, RawResponse, StandardResponse};
