//! What every endpoint answers: a status code, a short message and, where
//! the request succeeded, its payload; and the request values the handlers
//! read before calling the store.

use vstd::prelude::*;

verus! {

broadcast use vstd::string::group_string_axioms;

pub const OK: u16 = 200;
pub const CREATED: u16 = 201;
pub const BAD_REQUEST: u16 = 400;
pub const NOT_FOUND: u16 = 404;
pub const INTERNAL_SERVER_ERROR: u16 = 500;

/// Status and message of a response; `with_payload` says whether the
/// record the request acted on goes with it.
pub struct Reply {
    pub status: u16,
    pub message: String,
    pub with_payload: bool,
}

impl Reply {
    /// A reply with the message `message`.
    pub fn new(status: u16, message: &str, with_payload: bool) -> (r: Reply)
        ensures
            r.status == status,
            r.message@ == message@,
            r.with_payload == with_payload,
    {
        Reply { status, message: String::from_str(message), with_payload }
    }

    /// A reply whose message is `prefix` followed by `detail`.
    pub fn detailed(status: u16, prefix: &str, detail: &str) -> (r: Reply)
        ensures
            r.status == status,
            r.message@ == prefix@ + detail@,
            !r.with_payload,
    {
        let mut message = String::from_str(prefix);
        message.append(detail);
        Reply { status, message, with_payload: false }
    }
}

/// The value of a string of ASCII digits.
pub open spec fn digits_value(s: Seq<char>) -> int
    decreases s.len(),
{
    if s.len() == 0 {
        0
    } else {
        digits_value(s.drop_last()) * 10 + (s.last() as int - '0' as int)
    }
}

/// A non-empty string of ASCII digits.
pub open spec fn all_digits(s: Seq<char>) -> bool {
    s.len() > 0 && forall|i: int| 0 <= i < s.len() ==> '0' <= #[trigger] s[i] && s[i] <= '9'
}

/// The integer that `s` writes in decimal: an optional `+` or `-`, then digits.
pub open spec fn int_of(s: Seq<char>) -> Option<int> {
    if s.len() > 0 && (s[0] == '+' || s[0] == '-') {
        if all_digits(s.drop_first()) {
            Some(if s[0] == '-' { -digits_value(s.drop_first()) } else { digits_value(s.drop_first()) })
        } else {
            None
        }
    } else if all_digits(s) {
        Some(digits_value(s))
    } else {
        None
    }
}

/// The `i32` that `s` writes, if it writes one in range.
pub open spec fn i32_of(s: Seq<char>) -> Option<i32> {
    match int_of(s) {
        Some(v) => if i32::MIN <= v && v <= i32::MAX { Some(v as i32) } else { None },
        None => None,
    }
}

/// Relies on `str::parse::<i32>`, documented to accept an optional `+` or
/// `-` followed by ASCII digits and nothing else, and to fail when the value
/// does not fit in an `i32`.
#[verifier::external_body]
fn parse_i32(s: &str) -> (r: Option<i32>)
    ensures
        r == i32_of(s@),
{
    s.parse::<i32>().ok()
}

/// Reads a record identifier from a request parameter: the `i32` it
/// writes, if it writes one in range.
pub fn parse_id(s: &str) -> (r: Option<i32>)
    ensures
        r == i32_of(s@),
{
    parse_i32(s)
}

/// The message that refuses the malformed identifier `s`.
pub open spec fn malformed_id_message(s: Seq<char>) -> Seq<char> {
    "Malformed identifier: "@ + s
}

/// The identifier a request parameter names: none when the parameter is
/// absent, a client error when it is present but writes no `i32`.
pub fn requested_id(id: &Option<String>) -> (r: Result<Option<i32>, Reply>)
    ensures
        match *id {
            None => r == Ok::<Option<i32>, Reply>(None),
            Some(s) => match i32_of(s@) {
                Some(v) => r == Ok::<Option<i32>, Reply>(Some(v)),
                None => {
                    &&& r is Err
                    &&& r->Err_0.status == BAD_REQUEST
                    &&& r->Err_0.message@ == malformed_id_message(s@)
                    &&& !r->Err_0.with_payload
                },
            },
        },
{
    match id {
        None => Ok(None),
        Some(s) => match parse_id(s.as_str()) {
            Some(v) => Ok(Some(v)),
            None => Err(Reply::detailed(BAD_REQUEST, "Malformed identifier: ", s.as_str())),
        },
    }
}

impl Reply {
    /// The reply when the store failed to read or write a record: not found
    /// when the record is `missing`, a client error otherwise; the message is
    /// `prefix` followed by the store's `detail`.
    pub fn store_failure(missing: bool, prefix: &str, detail: &str) -> (r: Reply)
        ensures
            r.status == (if missing { NOT_FOUND } else { BAD_REQUEST }),
            r.message@ == prefix@ + detail@,
            !r.with_payload,
    {
        let status = if missing { NOT_FOUND } else { BAD_REQUEST };
        Reply::detailed(status, prefix, detail)
    }
}

} // verus!
