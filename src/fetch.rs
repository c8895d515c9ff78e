//! Requests handed to the host, and the outcome of a fetch.

use crate::response::{
    adapt_native, adapt_standard, adapt_standard_spec, AdaptError, NativeResponse, RawResponse,
    StandardModel, StandardResponse,
};
use vstd::prelude::*;

verus! {

/// Options merged into a request: method, headers, body and redirect
/// policy. Absent fields keep the host's defaults.
#[derive(Debug, PartialEq, Eq)]
pub struct RequestOptions {
    pub method: Option<String>,
    pub headers: Vec<(String, String)>,
    pub body: Option<Vec<u8>>,
    pub redirect: Option<String>,
}

/// A fully formed request.
#[derive(Debug, PartialEq, Eq)]
pub struct Request {
    pub url: String,
    pub options: RequestOptions,
}

/// One call of the host's fetch primitive on the object with identity
/// `target`, in one of its calling conventions.
#[derive(Debug, PartialEq, Eq)]
pub enum HostCall {
    FetchWithStr { target: u64, url: String },
    FetchWithStrAndInit { target: u64, url: String, init: RequestOptions },
    FetchWithRequest { target: u64, request: Request },
}

/// Failure of an authenticated fetch.
#[derive(Debug, PartialEq, Eq)]
pub enum FetchError {
    /// The caller's value could not be turned into a request.
    InvalidRequest(String),
    /// The host's network or handshake layer failed, with its diagnostic.
    Transport(String),
    /// The host's response cannot be given in the configured shape.
    Incompatible,
}

/// The result of a fetch for a build that gives responses in the host's own
/// representation. `outcome` is what the host's fetch settled with: a
/// response, or the diagnostic of a transport failure.
pub fn finish_fetch_native(outcome: Result<RawResponse, String>) -> (r: Result<
    NativeResponse,
    FetchError,
>)
    ensures
        match outcome {
            Ok(raw) => r is Ok && r->Ok_0.raw@ == raw@,
            Err(message) => r == Err::<NativeResponse, FetchError>(FetchError::Transport(message)),
        },
{
    match outcome {
        Ok(raw) => Ok(adapt_native(raw)),
        Err(message) => Err(FetchError::Transport(message)),
    }
}

/// The result of a fetch for a build that gives responses in the standard
/// representation. `outcome` is what the host's fetch settled with.
pub fn finish_fetch_standard(outcome: Result<RawResponse, String>) -> (r: Result<
    StandardResponse,
    FetchError,
>)
    ensures
        match outcome {
            Ok(raw) => match r {
                Ok(s) => adapt_standard_spec(raw@) == Ok::<StandardModel, AdaptError>(s@),
                Err(e) => e == FetchError::Incompatible && adapt_standard_spec(raw@) is Err,
            },
            Err(message) => r == Err::<StandardResponse, FetchError>(
                FetchError::Transport(message),
            ),
        },
{
    match outcome {
        Ok(raw) => match adapt_standard(raw) {
            Ok(s) => Ok(s),
            Err(_) => Err(FetchError::Incompatible),
        },
        Err(message) => Err(FetchError::Transport(message)),
    }
}

} // verus!
