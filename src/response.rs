//! The host's raw response and its two external representations.

use vstd::prelude::*;

verus! {

/// What a raw host response is to the logic.
pub struct RawModel {
    pub status: u16,
    pub status_text: Seq<char>,
    pub headers: Seq<(Seq<u8>, Seq<u8>)>,
    pub body: Option<u64>,
}

/// A response as the host delivered it: status, status text, header
/// name/value pairs in the host's order, and a reference to the host's body
/// stream (`None` when there is no body). The body is never read here.
#[derive(Debug, PartialEq, Eq)]
pub struct RawResponse {
    pub status: u16,
    pub status_text: String,
    pub headers: Vec<(Vec<u8>, Vec<u8>)>,
    pub body: Option<u64>,
}

impl View for RawResponse {
    type V = RawModel;

    open spec fn view(&self) -> RawModel {
        RawModel {
            status: self.status,
            status_text: self.status_text@,
            headers: self.headers@.map_values(|h: (Vec<u8>, Vec<u8>)| (h.0@, h.1@)),
            body: self.body,
        }
    }
}

/// The response in the host's own representation: the raw response itself.
#[derive(Debug, PartialEq, Eq)]
pub struct NativeResponse {
    pub raw: RawResponse,
}

/// What a response in the standard representation is to the logic.
pub struct StandardModel {
    pub status: u16,
    pub headers: Seq<(Seq<u8>, Seq<u8>)>,
    pub body: Option<u64>,
}

/// The response in the standard status/headers/body representation, with
/// header names in lower case.
#[derive(Debug, PartialEq, Eq)]
pub struct StandardResponse {
    pub status: u16,
    pub headers: Vec<(Vec<u8>, Vec<u8>)>,
    pub body: Option<u64>,
}

impl View for StandardResponse {
    type V = StandardModel;

    open spec fn view(&self) -> StandardModel {
        StandardModel {
            status: self.status,
            headers: self.headers@.map_values(|h: (Vec<u8>, Vec<u8>)| (h.0@, h.1@)),
            body: self.body,
        }
    }
}

/// A raw response that the standard representation cannot hold.
#[derive(Debug, PartialEq, Eq)]
pub enum AdaptError {
    Incompatible,
}

/// A byte of an HTTP token, the characters a header name is made of.
pub open spec fn is_token_byte(b: u8) -> bool {
    // digits, lower- and upper-case letters
    (48 <= b && b <= 57) || (97 <= b && b <= 122) || (65 <= b && b <= 90)
    // ! # $ % & ' * + - . ^ _ ` | ~
     || b == 33 || (35 <= b && b <= 39) || b == 42 || b == 43 || b == 45 || b == 46 || (94 <= b
        && b <= 96) || b == 124 || b == 126
}

/// A byte allowed in a header value: a tab, or anything from space up but
/// the delete character.
pub open spec fn is_value_byte(b: u8) -> bool {
    b == 9 || (32 <= b && b != 127)
}

/// `b` with an upper-case ASCII letter turned to lower case.
pub open spec fn lower_byte(b: u8) -> u8 {
    if 65 <= b && b <= 90 {
        (b + 32) as u8
    } else {
        b
    }
}

/// A header the standard representation can hold: a non-empty token as
/// name, and a value of allowed bytes.
pub open spec fn header_representable(h: (Seq<u8>, Seq<u8>)) -> bool {
    h.0.len() > 0 && (forall|i: int| 0 <= i < h.0.len() ==> #[trigger] is_token_byte(h.0[i]))
        && (forall|i: int| 0 <= i < h.1.len() ==> #[trigger] is_value_byte(h.1[i]))
}

/// A raw response the standard representation can hold: a three-digit
/// status and headers it can hold.
pub open spec fn representable(raw: RawModel) -> bool {
    100 <= raw.status && raw.status <= 999 && (forall|i: int|
        0 <= i < raw.headers.len() ==> #[trigger] header_representable(raw.headers[i]))
}

/// A header in the standard representation: its name in lower case.
pub open spec fn standard_header(h: (Seq<u8>, Seq<u8>)) -> (Seq<u8>, Seq<u8>) {
    (h.0.map_values(|b: u8| lower_byte(b)), h.1)
}

/// The standard representation of a representable raw response.
pub open spec fn standard_of(raw: RawModel) -> StandardModel {
    StandardModel {
        status: raw.status,
        headers: raw.headers.map_values(|h: (Seq<u8>, Seq<u8>)| standard_header(h)),
        body: raw.body,
    }
}

/// The outcome of converting `raw` to the standard representation.
pub open spec fn adapt_standard_spec(raw: RawModel) -> Result<StandardModel, AdaptError> {
    if representable(raw) {
        Ok(standard_of(raw))
    } else {
        Err(AdaptError::Incompatible)
    }
}

/// The host's representation: the raw response, unchanged.
pub fn adapt_native(raw: RawResponse) -> (r: NativeResponse)
    ensures
        r.raw@ == raw@,
{
    NativeResponse { raw }
}

fn is_token(b: u8) -> (r: bool)
    ensures
        r == is_token_byte(b),
{
    // digits, lower- and upper-case letters
    (48 <= b && b <= 57) || (97 <= b && b <= 122) || (65 <= b && b <= 90)
    // ! # $ % & ' * + - . ^ _ ` | ~
     || b == 33 || (35 <= b && b <= 39) || b == 42 || b == 43 || b == 45 || b == 46 || (94 <= b
        && b <= 96) || b == 124 || b == 126
}

/// The lower-cased name of a header, or `None` when it is not a token.
fn standard_name(name: &Vec<u8>) -> (r: Option<Vec<u8>>)
    ensures
        match r {
            Some(n) => name@.len() > 0 && (forall|i: int|
                0 <= i < name@.len() ==> #[trigger] is_token_byte(name@[i])) && n@ == name@.map_values(
                |b: u8| lower_byte(b),
            ),
            None => !(name@.len() > 0 && (forall|i: int|
                0 <= i < name@.len() ==> #[trigger] is_token_byte(name@[i]))),
        },
{
    if name.len() == 0 {
        return None;
    }
    let mut out: Vec<u8> = Vec::new();
    let mut i: usize = 0;
    while i < name.len()
        invariant
            i <= name@.len(),
            forall|j: int| 0 <= j < i ==> #[trigger] is_token_byte(name@[j]),
            out@ == name@.take(i as int).map_values(|b: u8| lower_byte(b)),
        decreases name@.len() - i,
    {
        let b = name[i];
        if !is_token(b) {
            return None;
        }
        let l: u8 = if 65 <= b && b <= 90 {
            b + 32
        } else {
            b
        };
        out.push(l);
        i = i + 1;
        assert(name@.take(i as int).map_values(|b: u8| lower_byte(b)) =~= name@.take(
            i - 1,
        ).map_values(|b: u8| lower_byte(b)).push(lower_byte(b)));
    }
    assert(name@.take(i as int) =~= name@);
    Some(out)
}

/// A copy of a header value, or `None` when a byte is not allowed in one.
fn standard_value(value: &Vec<u8>) -> (r: Option<Vec<u8>>)
    ensures
        match r {
            Some(v) => (forall|i: int| 0 <= i < value@.len() ==> #[trigger] is_value_byte(value@[i]))
                && v@ == value@,
            None => !(forall|i: int|
                0 <= i < value@.len() ==> #[trigger] is_value_byte(value@[i])),
        },
{
    let mut out: Vec<u8> = Vec::new();
    let mut i: usize = 0;
    while i < value.len()
        invariant
            i <= value@.len(),
            forall|j: int| 0 <= j < i ==> #[trigger] is_value_byte(value@[j]),
            out@ == value@.take(i as int),
        decreases value@.len() - i,
    {
        let b = value[i];
        if !(b == 9 || (32 <= b && b != 127)) {
            assert(!is_value_byte(value@[i as int]));
            return None;
        }
        out.push(b);
        i = i + 1;
        assert(value@.take(i as int) =~= value@.take(i - 1).push(b));
    }
    assert(value@.take(i as int) =~= value@);
    Some(out)
}

/// The standard representation of `raw`: the same status, body and headers
/// in the same order, each name in lower case. It fails when the status is
/// not of three digits or a header name or value has a byte that the
/// representation does not allow.
pub fn adapt_standard(raw: RawResponse) -> (r: Result<StandardResponse, AdaptError>)
    ensures
        match r {
            Ok(s) => adapt_standard_spec(raw@) == Ok::<StandardModel, AdaptError>(s@),
            Err(e) => adapt_standard_spec(raw@) == Err::<StandardModel, AdaptError>(e),
        },
{
    if raw.status < 100 || raw.status > 999 {
        return Err(AdaptError::Incompatible);
    }
    let ghost hv = raw@.headers;
    let mut headers: Vec<(Vec<u8>, Vec<u8>)> = Vec::new();
    let mut i: usize = 0;
    while i < raw.headers.len()
        invariant
            i <= raw.headers@.len(),
            hv == raw@.headers,
            hv.len() == raw.headers@.len(),
            forall|j: int| 0 <= j < i ==> #[trigger] header_representable(hv[j]),
            headers@.len() == i,
            forall|j: int|
                0 <= j < i ==> (#[trigger] headers@[j]).0@ == standard_header(hv[j]).0
                    && headers@[j].1@ == standard_header(hv[j]).1,
        decreases raw.headers@.len() - i,
    {
        assert(hv[i as int] == (raw.headers@[i as int].0@, raw.headers@[i as int].1@));
        let name = standard_name(&raw.headers[i].0);
        let value = standard_value(&raw.headers[i].1);
        match name {
            None => {
                assert(!header_representable(hv[i as int]));
                return Err(AdaptError::Incompatible);
            },
            Some(n) => match value {
                None => {
                    let ghost vs = raw.headers@[i as int].1@;
                    assert(hv[i as int].1 == vs);
                    let ghost k = choose|k: int| 0 <= k < vs.len() && !is_value_byte(vs[k]);
                    assert(!is_value_byte(hv[i as int].1[k]));
                    assert(!header_representable(hv[i as int]));
                    return Err(AdaptError::Incompatible);
                },
                Some(v) => {
                    headers.push((n, v));
                },
            },
        }
        i = i + 1;
    }
    let s = StandardResponse { status: raw.status, headers, body: raw.body };
    assert(s@.headers =~= standard_of(raw@).headers);
    Ok(s)
}

} // verus!
