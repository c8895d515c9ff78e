//! Properties that relate several operations of the library.

use crate::certificate::{fetch_call, fetch_request_call, MtlsCertificate};
use crate::environment::{instance_of, resolved, ObjectModel};
use crate::fetch::{Request, RequestOptions};
use crate::response::{adapt_standard_spec, RawModel};
use vstd::prelude::*;
use vstd::std_specs::cmp::PartialEqSpec;

verus! {

/// A successful resolution hands out only objects that the runtime type
/// check accepts for the requested type.
pub proof fn lemma_resolved_passes_type_check(
    env: Map<Seq<char>, ObjectModel>,
    name: Seq<char>,
    type_tag: Seq<char>,
)
    requires
        resolved(env, name, type_tag) is Some,
    ensures
        instance_of(resolved(env, name, type_tag)->Some_0, type_tag),
{
}

/// A clone of a handle is equal to it, and the host calls that a fetch or a
/// fetch of a prepared request makes through either are the same.
pub proof fn lemma_clone_is_same_capability(
    handle: MtlsCertificate,
    copy: MtlsCertificate,
    url: String,
    init: Option<RequestOptions>,
    request: Result<Request, String>,
)
    requires
        cloned(handle, copy),
    ensures
        handle.eq_spec(&copy),
        fetch_call(handle@, url, init) == fetch_call(copy@, url, init),
        fetch_request_call(handle@, request) == fetch_request_call(copy@, request),
{
}

/// Converting equal raw responses to the standard representation gives the
/// same outcome: the same shape and the same field values.
pub proof fn lemma_adapt_standard_deterministic(a: RawModel, b: RawModel)
    requires
        a == b,
    ensures
        adapt_standard_spec(a) == adapt_standard_spec(b),
{
}

} // verus!
