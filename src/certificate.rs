//! The capability handle through which authenticated fetches are made.

use crate::environment::{is_instance, HostObject, ObjectModel};
use crate::fetch::{HostCall, Request, RequestOptions};
use vstd::prelude::*;

verus! {

/// The host type name under which a client-certificate binding appears.
/// The host represents such a binding exactly as a plain service fetcher, so
/// the two share this name.
pub open spec fn fetcher_binding_type_name() -> Seq<char> {
    seq!['F', 'e', 't', 'c', 'h', 'e', 'r']
}

/// A handle to a host object that presents a client certificate during the
/// TLS handshake of every request made through it.
///
/// The handle holds no state of its own: clones share the host object, and
/// two handles are equal exactly when they refer to the same host object.
/// It is shared between tasks on the assumption that the host object itself
/// may be used concurrently.
#[derive(Debug)]
pub struct MtlsCertificate {
    object: HostObject,
}

impl View for MtlsCertificate {
    type V = ObjectModel;

    closed spec fn view(&self) -> ObjectModel {
        self.object@
    }
}

impl From<HostObject> for MtlsCertificate {
    /// Wraps `object` without checking its type.
    fn from(object: HostObject) -> (r: MtlsCertificate)
        ensures
            r@ == object@,
    {
        MtlsCertificate { object }
    }
}

impl vstd::std_specs::convert::FromSpecImpl<HostObject> for MtlsCertificate {
    open spec fn obeys_from_spec() -> bool {
        true
    }

    closed spec fn from_spec(object: HostObject) -> MtlsCertificate {
        MtlsCertificate { object }
    }
}

impl Clone for MtlsCertificate {
    /// Another handle to the same host object.
    fn clone(&self) -> (r: MtlsCertificate)
        ensures
            r@ == self@,
    {
        MtlsCertificate { object: self.object.clone() }
    }
}

impl PartialEq for MtlsCertificate {
    fn eq(&self, other: &MtlsCertificate) -> (r: bool) {
        self.object.id == other.object.id
    }
}

impl vstd::std_specs::cmp::PartialEqSpecImpl for MtlsCertificate {
    open spec fn obeys_eq_spec() -> bool {
        true
    }

    open spec fn eq_spec(&self, other: &MtlsCertificate) -> bool {
        self@.id == other@.id
    }
}

impl MtlsCertificate {
    /// The host type name a binding must have to be taken as this handle.
    pub fn binding_type_name() -> (r: &'static str)
        ensures
            r@ == fetcher_binding_type_name(),
    {
        proof {
            reveal_strlit("Fetcher");
        }
        "Fetcher"
    }

    /// The handle to `object`, provided it is of the fetcher type.
    pub fn from_object(object: HostObject) -> (r: Option<MtlsCertificate>)
        ensures
            match r {
                Some(h) => object@.type_tag == fetcher_binding_type_name() && h@ == object@,
                None => object@.type_tag != fetcher_binding_type_name(),
            },
    {
        if is_instance(&object, MtlsCertificate::binding_type_name()) {
            Some(MtlsCertificate { object })
        } else {
            None
        }
    }

    /// The host object this handle refers to.
    pub fn as_object(&self) -> (r: &HostObject)
        ensures
            r@ == self@,
    {
        &self.object
    }

    /// Gives the host object back.
    pub fn into_object(self) -> (r: HostObject)
        ensures
            r@ == self@,
    {
        self.object
    }

    /// The host call that performs an authenticated request to `url`: a bare
    /// fetch of the address when `init` is absent, else one with the options
    /// merged in. The certificate is the one bound to this handle's object;
    /// the host presents it during the handshake.
    pub fn fetch(&self, url: String, init: Option<RequestOptions>) -> (r: HostCall)
        ensures
            r == fetch_call(self@, url, init),
    {
        match init {
            None => HostCall::FetchWithStr { target: self.object.id, url },
            Some(options) => HostCall::FetchWithStrAndInit {
                target: self.object.id,
                url,
                init: options,
            },
        }
    }

    /// The host call that performs an authenticated request already built by
    /// the caller. `request` is the outcome of converting the caller's value
    /// to a [`Request`]; a failed conversion is an invalid request.
    pub fn fetch_request(&self, request: Result<Request, String>) -> (r: Result<
        HostCall,
        crate::fetch::FetchError,
    >)
        ensures
            r == fetch_request_call(self@, request),
    {
        match request {
            Ok(req) => Ok(HostCall::FetchWithRequest { target: self.object.id, request: req }),
            Err(message) => Err(crate::fetch::FetchError::InvalidRequest(message)),
        }
    }
}

/// The host call made for a fetch of `url` with optional `init` through the
/// object `object`.
pub open spec fn fetch_call(object: ObjectModel, url: String, init: Option<RequestOptions>) -> HostCall {
    match init {
        None => HostCall::FetchWithStr { target: object.id, url },
        Some(options) => HostCall::FetchWithStrAndInit { target: object.id, url, init: options },
    }
}

/// The outcome of preparing a fetch of a caller-built request through the
/// object `object`.
pub open spec fn fetch_request_call(object: ObjectModel, request: Result<Request, String>) -> Result<
    HostCall,
    crate::fetch::FetchError,
> {
    match request {
        Ok(req) => Ok(HostCall::FetchWithRequest { target: object.id, request: req }),
        Err(message) => Err(crate::fetch::FetchError::InvalidRequest(message)),
    }
}

} // verus!
