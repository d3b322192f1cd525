//! The library's error taxonomy: validation failures (caught before any
//! network call), transport failures, server rejections, response-parse
//! failures, and the dedicated "not implemented" case for Azure-AD
//! authentication on the management surface.

use vstd::prelude::*;
use crate::strutil::{contains_seq, find_from_spec, match_at};
use crate::CloudDomain;

verus! {

/// A required key of a connection string.
#[derive(Clone, Copy, Debug, PartialEq, Eq, Structural)]
pub enum ConnField {
    Endpoint,
    SharedAccessKeyName,
    SharedAccessKey,
}

impl ConnField {
    pub open spec fn name_spec(&self) -> Seq<char> {
        match self {
            ConnField::Endpoint => "Endpoint"@,
            ConnField::SharedAccessKeyName => "SharedAccessKeyName"@,
            ConnField::SharedAccessKey => "SharedAccessKey"@,
        }
    }

    pub fn name(&self) -> (r: &'static str)
        ensures
            r@ == self.name_spec(),
    {
        match self {
            ConnField::Endpoint => "Endpoint",
            ConnField::SharedAccessKeyName => "SharedAccessKeyName",
            ConnField::SharedAccessKey => "SharedAccessKey",
        }
    }
}

/// What went wrong, by kind. Validation errors are raised before any
/// network traffic; `Server` carries the HTTP status and the response body
/// verbatim; `Unimplemented` is reserved for Azure-AD auth against the
/// management REST surface.
#[derive(Clone, Debug)]
pub enum SbError {
    EmptyConnectionString,
    MissingField(ConnField),
    InvalidEndpoint(String),
    UnsupportedEndpoint(String),
    Validation(String),
    Transport(String),
    Server(u16, String),
    Parse(String),
    Unimplemented(String),
}

/// The fixed tail of the unsupported-endpoint message, listing each
/// accepted cloud suffix after a `*` wildcard.
pub open spec fn supported_suffix_list() -> Seq<char> {
    ". Supported formats: *"@ + CloudDomain::Public.suffix_spec() + ", *"@
        + CloudDomain::UsGov.suffix_spec() + ", *"@ + CloudDomain::China.suffix_spec() + ", *"@
        + CloudDomain::Germany.suffix_spec()
}

/// Spec shorthand for the message of an unsupported-endpoint error.
pub open spec fn unsupported_endpoint_message(h: Seq<char>) -> Seq<char> {
    "Invalid Service Bus endpoint: "@ + h + supported_suffix_list()
}

impl SbError {
    pub open spec fn message_spec(&self) -> Seq<char> {
        match self {
            SbError::EmptyConnectionString => "Connection string cannot be empty"@,
            SbError::MissingField(f) => "Missing "@ + f.name_spec() + " in connection string"@,
            SbError::InvalidEndpoint(e) => "Invalid endpoint URL: "@ + e@,
            SbError::UnsupportedEndpoint(h) => unsupported_endpoint_message(h@),
            SbError::Validation(m) => m@,
            SbError::Transport(m) => "Request failed: "@ + m@,
            SbError::Server(status, body) => "Request failed with status "@
                + crate::strutil::dec_spec(*status as int) + ": "@ + body@,
            SbError::Parse(m) => "Failed to parse response: "@ + m@,
            SbError::Unimplemented(m) => m@,
        }
    }

    /// Human-readable description of the error.
    pub fn message(&self) -> (r: String)
        ensures
            r@ == self.message_spec(),
    {
        match self {
            SbError::EmptyConnectionString => {
                let r = String::from_str("Connection string cannot be empty");
                proof { assert(r@ =~= self.message_spec()); }
                r
            }
            SbError::MissingField(f) => {
                let mut r = String::from_str("Missing ");
                r.append(f.name());
                r.append(" in connection string");
                proof { assert(r@ =~= self.message_spec()); }
                r
            }
            SbError::InvalidEndpoint(e) => {
                let mut r = String::from_str("Invalid endpoint URL: ");
                r.append(e.as_str());
                proof { assert(r@ =~= self.message_spec()); }
                r
            }
            SbError::UnsupportedEndpoint(h) => {
                let mut r = String::from_str("Invalid Service Bus endpoint: ");
                r.append(h.as_str());
                r.append(". Supported formats: *");
                r.append(CloudDomain::Public.suffix());
                r.append(", *");
                r.append(CloudDomain::UsGov.suffix());
                r.append(", *");
                r.append(CloudDomain::China.suffix());
                r.append(", *");
                r.append(CloudDomain::Germany.suffix());
                proof { assert(r@ =~= self.message_spec()); }
                r
            }
            SbError::Validation(m) => {
                let r = m.clone();
                proof { assert(r@ =~= self.message_spec()); }
                r
            }
            SbError::Transport(m) => {
                let mut r = String::from_str("Request failed: ");
                r.append(m.as_str());
                proof { assert(r@ =~= self.message_spec()); }
                r
            }
            SbError::Server(status, body) => {
                let mut r = String::from_str("Request failed with status ");
                let code = crate::strutil::dec_of_u64(*status as u64);
                r.append(code.as_str());
                r.append(": ");
                r.append(body.as_str());
                proof { assert(r@ =~= self.message_spec()); }
                r
            }
            SbError::Parse(m) => {
                let mut r = String::from_str("Failed to parse response: ");
                r.append(m.as_str());
                proof { assert(r@ =~= self.message_spec()); }
                r
            }
            SbError::Unimplemented(m) => {
                let r = m.clone();
                proof { assert(r@ =~= self.message_spec()); }
                r
            }
        }
    }
}

proof fn lemma_match_implies_contains(s: Seq<char>, p: Seq<char>, from: int, i: int)
    requires
        0 <= from <= i,
        match_at(s, p, i),
    ensures
        find_from_spec(s, p, from).is_some(),
    decreases i - from,
{
    if from < i && !match_at(s, p, from) {
        lemma_match_implies_contains(s, p, from + 1, i);
    }
}

/// Whatever the unsupported host was, its error message lists every one of
/// the four accepted cloud suffixes.
pub proof fn lemma_unsupported_endpoint_lists_suffixes(h: Seq<char>, d: CloudDomain)
    ensures
        contains_seq(unsupported_endpoint_message(h), d.suffix_spec()),
{
    let msg = unsupported_endpoint_message(h);
    let head = "Invalid Service Bus endpoint: "@ + h;
    let lead = ". Supported formats: *"@;
    let sep = ", *"@;
    let s1 = CloudDomain::Public.suffix_spec();
    let s2 = CloudDomain::UsGov.suffix_spec();
    let s3 = CloudDomain::China.suffix_spec();
    let s4 = CloudDomain::Germany.suffix_spec();
    let o1: int = head.len() + lead.len() as int;
    let o2: int = o1 + s1.len() + sep.len();
    let o3: int = o2 + s2.len() + sep.len();
    let o4: int = o3 + s3.len() + sep.len();
    assert(msg =~= head + lead + s1 + sep + s2 + sep + s3 + sep + s4);
    match d {
        CloudDomain::Public => {
            assert(msg.subrange(o1, o1 + s1.len()) =~= s1);
            lemma_match_implies_contains(msg, s1, 0, o1);
        }
        CloudDomain::UsGov => {
            assert(msg.subrange(o2, o2 + s2.len()) =~= s2);
            lemma_match_implies_contains(msg, s2, 0, o2);
        }
        CloudDomain::China => {
            assert(msg.subrange(o3, o3 + s3.len()) =~= s3);
            lemma_match_implies_contains(msg, s3, 0, o3);
        }
        CloudDomain::Germany => {
            assert(msg.subrange(o4, o4 + s4.len()) =~= s4);
            lemma_match_implies_contains(msg, s4, 0, o4);
        }
    }
}

} // verus!
