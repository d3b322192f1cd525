//! Connection-string parsing and endpoint resolution: splitting the
//! semicolon-delimited key/value list, normalizing the endpoint URL, and
//! deriving the namespace and cloud domain from the endpoint host.

use vstd::prelude::*;
use crate::error::{ConnField, SbError};
use crate::strutil::{
    ends_with, ends_with_spec, find_from, find_from_spec, lemma_find_match, seq_eq_ci,
    starts_with, starts_with_spec, str_eq_ci, substring, trim, trim_spec,
};
use crate::CloudDomain;

verus! {

/// The four fields of a parsed connection string. The endpoint is kept
/// as written (normalization happens at resolution time).
#[derive(Clone, Debug)]
pub struct ParsedConnectionString {
    pub endpoint: String,
    pub shared_access_key_name: String,
    pub shared_access_key: String,
    pub entity_path: Option<String>,
}

// ---------------------------------------------------------------------------
// Connection-string parsing
// ---------------------------------------------------------------------------

/// Value of one `key=value` segment if its key matches `key` up to ASCII
/// case, with whitespace trimmed around segment, key and value. Segments
/// without `=`, and blank segments, carry no value.
pub open spec fn part_value(part: Seq<char>, key: Seq<char>) -> Option<Seq<char>> {
    let t = trim_spec(part);
    if t.len() == 0 {
        None
    } else {
        match find_from_spec(t, "="@, 0) {
            Some(j) => {
                if seq_eq_ci(trim_spec(t.take(j)), key) {
                    Some(trim_spec(t.skip(j + "="@.len() as int)))
                } else {
                    None
                }
            }
            None => None,
        }
    }
}

/// Value for `key` over the whole semicolon-delimited list; a later
/// segment with the same key overrides an earlier one.
pub open spec fn conn_value(s: Seq<char>, key: Seq<char>) -> Option<Seq<char>>
    decreases s.len(),
    via conn_value_decreases
{
    match find_from_spec(s, ";"@, 0) {
        Some(i) => {
            let rest = conn_value(s.skip(i + ";"@.len() as int), key);
            if rest is Some {
                rest
            } else {
                part_value(s.take(i), key)
            }
        }
        None => part_value(s, key),
    }
}

#[via_fn]
proof fn conn_value_decreases(s: Seq<char>, key: Seq<char>) {
    reveal_strlit(";");
    match find_from_spec(s, ";"@, 0) {
        Some(i) => {
            lemma_find_match(s, ";"@, 0, i);
        }
        None => {}
    }
}

/// Value for `key` in the trimmed connection string.
pub open spec fn conn_field_value(cs: Seq<char>, key: Seq<char>) -> Option<Seq<char>> {
    conn_value(trim_spec(cs), key)
}

/// An optional owned string viewed as an optional text value.
pub open spec fn opt_str_is(o: Option<String>, v: Option<Seq<char>>) -> bool {
    match o {
        Some(a) => v matches Some(b) && a@ == b,
        None => v is None,
    }
}

fn eval_part(part: &str, key: &str) -> (r: Option<String>)
    ensures
        opt_str_is(r, part_value(part@, key@)),
{
    proof {
        reveal_strlit("=");
    }
    let t = trim(part);
    if t.as_str().unicode_len() == 0 {
        return None;
    }
    match find_from(t.as_str(), "=", 0) {
        None => None,
        Some(j) => {
            proof {
                lemma_find_match(t@, "="@, 0, j as int);
            }
            let k = trim(t.as_str().substring_char(0, j));
            if str_eq_ci(k.as_str(), key) {
                let tlen = t.as_str().unicode_len();
                let v = trim(t.as_str().substring_char(j + 1, tlen));
                Some(v)
            } else {
                None
            }
        }
    }
}

fn scan_parts(s: &str) -> (r: (Option<String>, Option<String>, Option<String>, Option<String>))
    ensures
        opt_str_is(r.0, conn_value(s@, "Endpoint"@)),
        opt_str_is(r.1, conn_value(s@, "SharedAccessKeyName"@)),
        opt_str_is(r.2, conn_value(s@, "SharedAccessKey"@)),
        opt_str_is(r.3, conn_value(s@, "EntityPath"@)),
    decreases s@.len(),
{
    proof {
        reveal_strlit(";");
    }
    match find_from(s, ";", 0) {
        None => {
            (
                eval_part(s, "Endpoint"),
                eval_part(s, "SharedAccessKeyName"),
                eval_part(s, "SharedAccessKey"),
                eval_part(s, "EntityPath"),
            )
        }
        Some(i) => {
            proof {
                lemma_find_match(s@, ";"@, 0, i as int);
            }
            let slen = s.unicode_len();
            let head = s.substring_char(0, i);
            let rest = s.substring_char(i + 1, slen);
            let (e2, n2, k2, p2) = scan_parts(rest);
            let e1 = eval_part(head, "Endpoint");
            let n1 = eval_part(head, "SharedAccessKeyName");
            let k1 = eval_part(head, "SharedAccessKey");
            let p1 = eval_part(head, "EntityPath");
            let e = if e2.is_some() { e2 } else { e1 };
            let n = if n2.is_some() { n2 } else { n1 };
            let k = if k2.is_some() { k2 } else { k1 };
            let p = if p2.is_some() { p2 } else { p1 };
            (e, n, k, p)
        }
    }
}

/// Split a connection string into its fields.
///
/// Keys are matched case-insensitively; unknown keys are ignored;
/// whitespace around segments, keys and values is trimmed; a later
/// duplicate key overrides an earlier one. The three required fields are
/// `Endpoint`, `SharedAccessKeyName` and `SharedAccessKey`, checked in
/// that order; `EntityPath` is optional. An all-whitespace input is
/// rejected outright.
pub fn parse_connection_string(connection_string: &str) -> (r: Result<
    ParsedConnectionString,
    SbError,
>)
    ensures
        r == Err::<ParsedConnectionString, SbError>(SbError::EmptyConnectionString) <==> trim_spec(
            connection_string@,
        ).len() == 0,
        r is Ok <==> trim_spec(connection_string@).len() > 0 && conn_field_value(
            connection_string@,
            "Endpoint"@,
        ) is Some && conn_field_value(connection_string@, "SharedAccessKeyName"@) is Some
            && conn_field_value(connection_string@, "SharedAccessKey"@) is Some,
        r matches Ok(p) ==> {
            &&& conn_field_value(connection_string@, "Endpoint"@) == Some(p.endpoint@)
            &&& conn_field_value(connection_string@, "SharedAccessKeyName"@) == Some(
                p.shared_access_key_name@,
            )
            &&& conn_field_value(connection_string@, "SharedAccessKey"@) == Some(
                p.shared_access_key@,
            )
            &&& opt_str_is(p.entity_path, conn_field_value(connection_string@, "EntityPath"@))
        },
        r == Err::<ParsedConnectionString, SbError>(SbError::MissingField(ConnField::Endpoint))
            <==> trim_spec(connection_string@).len() > 0 && conn_field_value(
            connection_string@,
            "Endpoint"@,
        ) is None,
        r == Err::<ParsedConnectionString, SbError>(
            SbError::MissingField(ConnField::SharedAccessKeyName),
        ) <==> trim_spec(connection_string@).len() > 0 && conn_field_value(
            connection_string@,
            "Endpoint"@,
        ) is Some && conn_field_value(connection_string@, "SharedAccessKeyName"@) is None,
        r == Err::<ParsedConnectionString, SbError>(
            SbError::MissingField(ConnField::SharedAccessKey),
        ) <==> trim_spec(connection_string@).len() > 0 && conn_field_value(
            connection_string@,
            "Endpoint"@,
        ) is Some && conn_field_value(connection_string@, "SharedAccessKeyName"@) is Some
            && conn_field_value(connection_string@, "SharedAccessKey"@) is None,
{
    let trimmed = trim(connection_string);
    if trimmed.as_str().unicode_len() == 0 {
        return Err(SbError::EmptyConnectionString);
    }
    let (ep, kn, kv, path) = scan_parts(trimmed.as_str());
    let endpoint = match ep {
        Some(e) => e,
        None => {
            return Err(SbError::MissingField(ConnField::Endpoint));
        }
    };
    let shared_access_key_name = match kn {
        Some(n) => n,
        None => {
            return Err(SbError::MissingField(ConnField::SharedAccessKeyName));
        }
    };
    let shared_access_key = match kv {
        Some(k) => k,
        None => {
            return Err(SbError::MissingField(ConnField::SharedAccessKey));
        }
    };
    Ok(ParsedConnectionString { endpoint, shared_access_key_name, shared_access_key, entity_path: path })
}

// ---------------------------------------------------------------------------
// Endpoint normalization
// ---------------------------------------------------------------------------

/// `s` with every trailing `/` removed.
pub open spec fn strip_slashes_spec(s: Seq<char>) -> Seq<char>
    decreases s.len(),
{
    if s.len() > 0 && s.last() == '/' {
        strip_slashes_spec(s.drop_last())
    } else {
        s
    }
}

proof fn lemma_strip_slashes(s: Seq<char>, j: int)
    requires
        0 <= j <= s.len(),
        forall|k: int| j <= k < s.len() ==> s[k] == '/',
        j == 0 || s[j - 1] != '/',
    ensures
        strip_slashes_spec(s) == s.take(j),
    decreases s.len(),
{
    if j == s.len() && (s.len() == 0 || s.last() != '/') {
        assert(s.take(j) =~= s);
    } else {
        lemma_strip_slashes(s.drop_last(), j);
        assert(s.drop_last().take(j) =~= s.take(j));
    }
}

fn strip_trailing_slashes(s: &str) -> (r: String)
    ensures
        r@ == strip_slashes_spec(s@),
{
    let slen = s.unicode_len();
    let mut j: usize = slen;
    while j > 0 && s.get_char(j - 1) == '/'
        invariant
            j <= slen,
            slen == s@.len(),
            forall|k: int| j <= k < slen ==> s@[k] == '/',
        decreases j,
    {
        j = j - 1;
    }
    let r = substring(s, 0, j);
    proof {
        lemma_strip_slashes(s@, j as int);
    }
    r
}

/// The endpoint trimmed, its `sb://` scheme rewritten to `https://`, a
/// missing scheme filled in as `https://`, and trailing slashes removed.
pub open spec fn normalize_endpoint_spec(raw: Seq<char>) -> Seq<char> {
    let t = trim_spec(raw);
    if starts_with_spec(t, "sb://"@) {
        "https://"@ + strip_slashes_spec(t.skip("sb://"@.len() as int))
    } else if starts_with_spec(t, "http://"@) || starts_with_spec(t, "https://"@) {
        strip_slashes_spec(t)
    } else {
        "https://"@ + strip_slashes_spec(t)
    }
}

/// Rewrite an endpoint into an absolute `http(s)` URL candidate.
pub fn normalize_endpoint(raw: &str) -> (r: String)
    ensures
        r@ == normalize_endpoint_spec(raw@),
{
    proof {
        reveal_strlit("sb://");
        reveal_strlit("http://");
        reveal_strlit("https://");
    }
    let t = trim(raw);
    if starts_with(t.as_str(), "sb://") {
        let tlen = t.as_str().unicode_len();
        let tail = substring(t.as_str(), 5, tlen);
        let stripped = strip_trailing_slashes(tail.as_str());
        let mut r = String::from_str("https://");
        r.append(stripped.as_str());
        r
    } else if starts_with(t.as_str(), "http://") || starts_with(t.as_str(), "https://") {
        strip_trailing_slashes(t.as_str())
    } else {
        let stripped = strip_trailing_slashes(t.as_str());
        let mut r = String::from_str("https://");
        r.append(stripped.as_str());
        r
    }
}

// ---------------------------------------------------------------------------
// Host resolution
// ---------------------------------------------------------------------------

/// The host component that the URL parser reads out of `s`, if `s` is a
/// parseable absolute URL with a host.
pub uninterp spec fn url_host(s: Seq<char>) -> Option<Seq<char>>;

/// Relies on url::Url::parse and url::Url::host_str: parse the text as
/// an absolute URL and hand back its host component. Both are pure
/// functions of the text; failure to parse and a host-less URL both
/// yield nothing.
#[verifier::external_body]
fn url_host_str(s: &str) -> (r: Option<String>)
    ensures
        r.is_some() == url_host(s@).is_some(),
        r matches Some(h) ==> url_host(s@) == Some(h@),
{
    match url::Url::parse(s) {
        Ok(u) => match u.host_str() {
            Some(h) => Some(h.to_string()),
            None => None,
        },
        Err(_) => None,
    }
}

/// The cloud whose suffix ends the host, if any. The four suffixes are
/// mutually exclusive, so at most one matches.
pub open spec fn domain_of_host(h: Seq<char>) -> Option<CloudDomain> {
    if ends_with_spec(h, CloudDomain::Public.suffix_spec()) {
        Some(CloudDomain::Public)
    } else if ends_with_spec(h, CloudDomain::UsGov.suffix_spec()) {
        Some(CloudDomain::UsGov)
    } else if ends_with_spec(h, CloudDomain::China.suffix_spec()) {
        Some(CloudDomain::China)
    } else if ends_with_spec(h, CloudDomain::Germany.suffix_spec()) {
        Some(CloudDomain::Germany)
    } else {
        None
    }
}

fn try_domain(host: &str, d: CloudDomain) -> (r: Option<String>)
    ensures
        r.is_some() == ends_with_spec(host@, d.suffix_spec()),
        r matches Some(ns) ==> ns@ == host@.take(host@.len() - d.suffix_spec().len()) && ns@
            + d.suffix_spec() == host@,
{
    let sfx = d.suffix();
    if ends_with(host, sfx) {
        let hlen = host.unicode_len();
        let slen = sfx.unicode_len();
        let ns = substring(host, 0, hlen - slen);
        proof {
            assert(ns@ + d.suffix_spec() =~= host@);
        }
        Some(ns)
    } else {
        None
    }
}

/// Split a host into its namespace and cloud domain.
///
/// The namespace is exactly the host with the matched suffix removed, so
/// namespace and suffix concatenate back to the original host. A host
/// ending in none of the four suffixes is rejected, and the error's
/// message lists all four (`lemma_unsupported_endpoint_lists_suffixes`).
pub fn derive_namespace_and_domain(host: &str) -> (r: Result<(String, CloudDomain), SbError>)
    ensures
        r is Ok <==> domain_of_host(host@) is Some,
        r matches Ok(p) ==> {
            &&& domain_of_host(host@) == Some(p.1)
            &&& p.0@ == host@.take(host@.len() - p.1.suffix_spec().len())
            &&& p.0@ + p.1.suffix_spec() == host@
        },
        r matches Err(e) ==> e matches SbError::UnsupportedEndpoint(x) && x@ == host@,
{
    match try_domain(host, CloudDomain::Public) {
        Some(ns) => Ok((ns, CloudDomain::Public)),
        None => match try_domain(host, CloudDomain::UsGov) {
            Some(ns) => Ok((ns, CloudDomain::UsGov)),
            None => match try_domain(host, CloudDomain::China) {
                Some(ns) => Ok((ns, CloudDomain::China)),
                None => match try_domain(host, CloudDomain::Germany) {
                    Some(ns) => Ok((ns, CloudDomain::Germany)),
                    None => Err(SbError::UnsupportedEndpoint(host.to_owned())),
                },
            },
        },
    }
}

/// Namespace of a raw endpoint: normalize, take the URL host, strip the
/// cloud suffix.
pub fn get_namespace_from_endpoint(endpoint: &str) -> (r: Result<String, SbError>)
    ensures
        r is Ok <==> (url_host(normalize_endpoint_spec(endpoint@)) matches Some(h)
            && domain_of_host(h) is Some),
        r matches Ok(ns) ==> (url_host(normalize_endpoint_spec(endpoint@)) matches Some(h)
            && domain_of_host(h) matches Some(d) && ns@ + d.suffix_spec() == h),
        url_host(normalize_endpoint_spec(endpoint@)) is None ==> (r matches Err(e)
            && e matches SbError::InvalidEndpoint(x) && x@ == normalize_endpoint_spec(endpoint@)),
        url_host(normalize_endpoint_spec(endpoint@)) matches Some(h) ==> (domain_of_host(h)
            is None ==> (r matches Err(e) && e matches SbError::UnsupportedEndpoint(x) && x@
            == h)),
{
    let norm = normalize_endpoint(endpoint);
    match url_host_str(norm.as_str()) {
        None => Err(SbError::InvalidEndpoint(norm)),
        Some(h) => match derive_namespace_and_domain(h.as_str()) {
            Ok((ns, _d)) => Ok(ns),
            Err(e) => Err(e),
        },
    }
}

/// Cloud domain of a raw endpoint, by the same resolution as
/// `get_namespace_from_endpoint`.
pub fn get_endpoint_domain(endpoint: &str) -> (r: Result<CloudDomain, SbError>)
    ensures
        r is Ok <==> (url_host(normalize_endpoint_spec(endpoint@)) matches Some(h)
            && domain_of_host(h) is Some),
        r matches Ok(d) ==> (url_host(normalize_endpoint_spec(endpoint@)) matches Some(h)
            && domain_of_host(h) == Some(d)),
        url_host(normalize_endpoint_spec(endpoint@)) is None ==> (r matches Err(e)
            && e matches SbError::InvalidEndpoint(x) && x@ == normalize_endpoint_spec(endpoint@)),
        url_host(normalize_endpoint_spec(endpoint@)) matches Some(h) ==> (domain_of_host(h)
            is None ==> (r matches Err(e) && e matches SbError::UnsupportedEndpoint(x) && x@
            == h)),
{
    let norm = normalize_endpoint(endpoint);
    match url_host_str(norm.as_str()) {
        None => Err(SbError::InvalidEndpoint(norm)),
        Some(h) => match derive_namespace_and_domain(h.as_str()) {
            Ok((_ns, d)) => Ok(d),
            Err(e) => Err(e),
        },
    }
}

} // verus!
