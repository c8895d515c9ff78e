use mtls_binding::{
    adapt_native, adapt_standard, finish_fetch_native, finish_fetch_standard, is_instance, resolve,
    AdaptError, BindingError, Environment, FetchError, HostCall, HostObject, MtlsCertificate,
    RawResponse, Request, RequestOptions,
};

fn env_with(name: &str, id: u64, type_tag: &str) -> Environment {
    let mut env = Environment::new();
    env.bind(name, HostObject::new(id, type_tag));
    env
}

fn ok_response(status: u16) -> RawResponse {
    RawResponse {
        status,
        status_text: "OK".to_string(),
        headers: vec![(b"Content-Type".to_vec(), b"text/plain".to_vec())],
        body: Some(7),
    }
}

fn handle() -> MtlsCertificate {
    let env = env_with("CERT", 42, "Fetcher");
    resolve(&env, "CERT", "Fetcher").unwrap()
}

#[test]
fn resolve_fetcher_binding() {
    let env = env_with("CERT", 1, "Fetcher");
    let h = resolve(&env, "CERT", "Fetcher").unwrap();
    assert_eq!(h.as_object(), &HostObject::new(1, "Fetcher"));
}

#[test]
fn resolve_in_empty_environment_is_missing() {
    let env = Environment::new();
    match resolve(&env, "CERT", "Fetcher") {
        Err(e) => assert_eq!(e, BindingError::BindingMissing("CERT".to_string())),
        Ok(_) => panic!("resolved a missing binding"),
    }
}

#[test]
fn resolve_wrong_type_is_mismatch() {
    let env = env_with("CERT", 1, "KVNamespace");
    match resolve(&env, "CERT", "Fetcher") {
        Err(e) => assert_eq!(
            e,
            BindingError::BindingTypeMismatch("CERT".to_string(), "Fetcher".to_string())
        ),
        Ok(_) => panic!("resolved a binding of the wrong type"),
    }
}

#[test]
fn resolve_is_case_sensitive() {
    let env = env_with("CERT", 1, "Fetcher");
    assert!(matches!(resolve(&env, "cert", "Fetcher"), Err(BindingError::BindingMissing(_))));
    assert!(matches!(
        resolve(&env, "CERT", "fetcher"),
        Err(BindingError::BindingTypeMismatch(_, _))
    ));
}

#[test]
fn resolve_is_repeatable() {
    let env = env_with("CERT", 3, "Fetcher");
    let a = resolve(&env, "CERT", "Fetcher").unwrap();
    let b = resolve(&env, "CERT", "Fetcher").unwrap();
    assert!(a == b);
}

#[test]
fn later_binding_replaces_earlier() {
    let mut env = Environment::new();
    env.bind("CERT", HostObject::new(1, "KVNamespace"));
    env.bind("OTHER", HostObject::new(2, "Fetcher"));
    env.bind("CERT", HostObject::new(3, "Fetcher"));
    let h = resolve(&env, "CERT", "Fetcher").unwrap();
    assert_eq!(h.as_object().id, 3);
    assert_eq!(env.get("OTHER"), Some(&HostObject::new(2, "Fetcher")));
    assert_eq!(env.get("NONE"), None);
}

#[test]
fn resolved_handle_passes_type_check() {
    let env = env_with("CERT", 5, "Fetcher");
    let h = resolve(&env, "CERT", "Fetcher").unwrap();
    assert!(is_instance(h.as_object(), "Fetcher"));
    assert!(!is_instance(h.as_object(), "KVNamespace"));
}

#[test]
fn certificate_binding_type_is_fetcher() {
    assert_eq!(MtlsCertificate::binding_type_name(), "Fetcher");
    assert!(MtlsCertificate::from_object(HostObject::new(1, "Fetcher")).is_some());
    assert!(MtlsCertificate::from_object(HostObject::new(1, "KVNamespace")).is_none());
}

#[test]
fn clone_is_same_capability() {
    let h = handle();
    let c = h.clone();
    assert!(h == c);
    assert_eq!(c.as_object(), h.as_object());
    let url = "https://api.example.com/endpoint".to_string();
    assert_eq!(h.fetch(url.clone(), None), c.fetch(url, None));
}

#[test]
fn handles_to_different_objects_differ() {
    let a = MtlsCertificate::from(HostObject::new(1, "Fetcher"));
    let b = MtlsCertificate::from(HostObject::new(2, "Fetcher"));
    assert!(a != b);
    assert_eq!(b.into_object(), HostObject::new(2, "Fetcher"));
}

#[test]
fn fetch_without_options_is_bare_call() {
    let h = handle();
    let call = h.fetch("https://api.example.com/endpoint".to_string(), None);
    assert_eq!(
        call,
        HostCall::FetchWithStr { target: 42, url: "https://api.example.com/endpoint".to_string() }
    );
}

#[test]
fn fetch_with_options_merges_them() {
    let h = handle();
    let init = || RequestOptions {
        method: Some("POST".to_string()),
        headers: vec![("X-Key".to_string(), "1".to_string())],
        body: Some(b"{}".to_vec()),
        redirect: None,
    };
    let call = h.fetch("https://api.example.com/submit".to_string(), Some(init()));
    assert_eq!(
        call,
        HostCall::FetchWithStrAndInit {
            target: 42,
            url: "https://api.example.com/submit".to_string(),
            init: init(),
        }
    );
}

#[test]
fn fetch_request_uses_built_request() {
    let h = handle();
    let req = Request {
        url: "https://api.example.com/data".to_string(),
        options: RequestOptions { method: None, headers: vec![], body: None, redirect: None },
    };
    let call = h.fetch_request(Ok(req)).unwrap();
    match call {
        HostCall::FetchWithRequest { target, request } => {
            assert_eq!(target, 42);
            assert_eq!(request.url, "https://api.example.com/data");
        }
        _ => panic!("wrong calling convention"),
    }
}

#[test]
fn fetch_request_conversion_failure_is_invalid_request() {
    let h = handle();
    assert_eq!(
        h.fetch_request(Err("bad uri".to_string())),
        Err(FetchError::InvalidRequest("bad uri".to_string()))
    );
}

#[test]
fn transport_failure_is_reported() {
    let h = handle();
    let _call = h.fetch("https://api.example.com/endpoint".to_string(), None);
    let failure = || Err("connection reset".to_string());
    assert_eq!(
        finish_fetch_native(failure()).err(),
        Some(FetchError::Transport("connection reset".to_string()))
    );
    assert_eq!(
        finish_fetch_standard(failure()).err(),
        Some(FetchError::Transport("connection reset".to_string()))
    );
}

#[test]
fn status_200_in_both_shapes() {
    let h = handle();
    let _call = h.fetch("https://api.example.com/endpoint".to_string(), None);
    let native = finish_fetch_native(Ok(ok_response(200))).unwrap();
    assert_eq!(native.raw.status, 200);
    let standard = finish_fetch_standard(Ok(ok_response(200))).unwrap();
    assert_eq!(standard.status, 200);
}

#[test]
fn native_keeps_raw_response() {
    let native = adapt_native(ok_response(404));
    assert_eq!(native.raw, ok_response(404));
}

#[test]
fn standard_lowercases_names_and_keeps_the_rest() {
    let raw = RawResponse {
        status: 201,
        status_text: "Created".to_string(),
        headers: vec![
            (b"Content-Type".to_vec(), b"text/plain; charset=utf-8".to_vec()),
            (b"X-Trace-ID".to_vec(), b"a\tb \xc3\xa9".to_vec()),
        ],
        body: None,
    };
    let s = adapt_standard(raw).unwrap();
    assert_eq!(s.status, 201);
    assert_eq!(
        s.headers,
        vec![
            (b"content-type".to_vec(), b"text/plain; charset=utf-8".to_vec()),
            (b"x-trace-id".to_vec(), b"a\tb \xc3\xa9".to_vec()),
        ]
    );
    assert_eq!(s.body, None);
}

#[test]
fn standard_is_deterministic() {
    let a = adapt_standard(ok_response(200)).unwrap();
    let b = adapt_standard(ok_response(200)).unwrap();
    assert_eq!(a, b);
    assert_eq!(a.body, Some(7));
}

#[test]
fn standard_rejects_bad_status() {
    assert_eq!(adapt_standard(ok_response(99)), Err(AdaptError::Incompatible));
    assert_eq!(adapt_standard(ok_response(1000)), Err(AdaptError::Incompatible));
    assert!(adapt_standard(ok_response(100)).is_ok());
    assert!(adapt_standard(ok_response(999)).is_ok());
}

#[test]
fn standard_rejects_bad_headers() {
    let mut raw = ok_response(200);
    raw.headers.push((b"Bad Name".to_vec(), b"v".to_vec()));
    assert_eq!(adapt_standard(raw), Err(AdaptError::Incompatible));
    let mut raw = ok_response(200);
    raw.headers.push((b"".to_vec(), b"v".to_vec()));
    assert_eq!(adapt_standard(raw), Err(AdaptError::Incompatible));
    let mut raw = ok_response(200);
    raw.headers.push((b"X-Ok".to_vec(), b"line\nbreak".to_vec()));
    assert_eq!(adapt_standard(raw), Err(AdaptError::Incompatible));
    let mut raw = ok_response(200);
    raw.headers.push((b"X-Ok".to_vec(), b"del\x7f".to_vec()));
    assert_eq!(adapt_standard(raw), Err(AdaptError::Incompatible));
}

#[test]
fn incompatible_response_fails_standard_fetch() {
    assert_eq!(finish_fetch_standard(Ok(ok_response(42))).err(), Some(FetchError::Incompatible));
    assert!(finish_fetch_native(Ok(ok_response(42))).is_ok());
}
