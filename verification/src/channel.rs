//! The authenticated channel to the auth service.
//!
//! The transport itself (endpoint, TLS handshake, connect) is assembled and
//! driven by the application; everything it needs to decide is computed
//! here: the normalized address, the server name for TLS, the ordered
//! well-known CA-bundle locations, and the fixed timeouts.

use vstd::prelude::*;
use vstd::string::StringExecFns;
use crate::textutil::find_substring;
use crate::textutil::has_prefix;
use crate::textutil::spec_find;
use crate::textutil::starts_with;
use crate::textutil::str_to_chars;
use crate::textutil::subvec_chars;
use crate::textutil::chars_to_string;

verus! {

/// `addr` already carries a scheme.
pub open spec fn spec_has_scheme(addr: Seq<char>) -> bool {
    has_prefix(addr, "http://"@) || has_prefix(addr, "https://"@)
}

/// The address with a scheme: unchanged when it has one, else `http://` in
/// insecure mode and `https://` otherwise.
pub open spec fn spec_normalized_url(addr: Seq<char>, insecure: bool) -> Seq<char> {
    if spec_has_scheme(addr) {
        addr
    } else if insecure {
        "http://"@ + addr
    } else {
        "https://"@ + addr
    }
}

/// Normalize the service address for the transport.
pub fn normalize_auth_url(addr: &str, insecure: bool) -> (r: String)
    ensures
        r@ == spec_normalized_url(addr@, insecure),
{
    if starts_with(addr, "http://") || starts_with(addr, "https://") {
        String::from_str(addr)
    } else if insecure {
        let mut s = String::from_str("http://");
        s.append(addr);
        s
    } else {
        let mut s = String::from_str("https://");
        s.append(addr);
        s
    }
}

/// The prefix of `s` up to the first occurrence of `sub` (all of `s` when
/// `sub` does not occur).
pub open spec fn spec_up_to(s: Seq<char>, sub: Seq<char>) -> Seq<char> {
    match spec_find(s, sub) {
        Option::Some(i) => s.subrange(0, i),
        Option::None => s,
    }
}

/// The host the TLS layer should expect, parsed from the normalized URL:
/// everything after the first `//`, cut at the first `/`, cut at the first
/// `:`. `None` when the URL has no `//`.
pub open spec fn spec_host_of_url(url: Seq<char>) -> Option<Seq<char>> {
    match spec_find(url, "//"@) {
        Option::None => Option::None,
        Option::Some(i) => {
            let rest = url.subrange(i + 2, url.len() as int);
            Option::Some(spec_up_to(spec_up_to(rest, "/"@), ":"@))
        },
    }
}

fn up_to(s: &str, sub: &str) -> (r: String)
    ensures
        r@ == spec_up_to(s@, sub@),
{
    let v = str_to_chars(s);
    match find_substring(s, sub) {
        Option::Some(i) => {
            proof {
                crate::textutil::lemma_find_at_bounds(s@, sub@, 0);
            }
            let head = subvec_chars(&v, 0, i);
            chars_to_string(&head)
        },
        Option::None => chars_to_string(&v),
    }
}

/// The server name for TLS: the supplied override, or the host parsed from
/// the URL.
pub fn host_for_sni(url: &str, domain_override: Option<String>) -> (r: Option<String>)
    ensures
        (match domain_override {
            Option::Some(d) => r == Some(d),
            Option::None => (match spec_host_of_url(url@) {
                Option::Some(h) => r matches Some(s) && s@ == h,
                Option::None => r is None,
            }),
        }),
{
    match domain_override {
        Option::Some(d) => Some(d),
        Option::None => {
            let v = str_to_chars(url);
            match find_substring(url, "//") {
                Option::None => None,
                Option::Some(i) => {
                    let n = v.len();
                    proof {
                        reveal_strlit("//");
                        crate::textutil::lemma_find_at_bounds(url@, "//"@, 0);
                        assert(i + 2 <= n);
                    }
                    let rest = subvec_chars(&v, i + 2, n);
                    let rest_s = chars_to_string(&rest);
                    let host_port = up_to(rest_s.as_str(), "/");
                    let host = up_to(host_port.as_str(), ":");
                    Some(host)
                },
            }
        },
    }
}

/// The well-known CA-bundle locations, probed in order.
pub fn ca_bundle_candidates() -> (r: Vec<String>)
    ensures
        r@.len() == 5,
        r@[0]@ == "/etc/ssl/certs/ca-certificates.crt"@,
        r@[1]@ == "/etc/pki/tls/certs/ca-bundle.crt"@,
        r@[2]@ == "/etc/ssl/ca-bundle.pem"@,
        r@[3]@ == "/usr/local/etc/openssl/cert.pem"@,
        r@[4]@ == "/etc/ssl/cert.pem"@,
{
    let mut v: Vec<String> = Vec::new();
    v.push(String::from_str("/etc/ssl/certs/ca-certificates.crt"));
    v.push(String::from_str("/etc/pki/tls/certs/ca-bundle.crt"));
    v.push(String::from_str("/etc/ssl/ca-bundle.pem"));
    v.push(String::from_str("/usr/local/etc/openssl/cert.pem"));
    v.push(String::from_str("/etc/ssl/cert.pem"));
    v
}

/// The first existing candidate, by the probe results, in order; `None` when
/// none exists — which is not fatal by itself.
pub fn pick_ca_bundle(exists: &Vec<bool>) -> (r: Option<usize>)
    ensures
        (match r {
            Option::Some(i) => i < exists@.len() && exists@[i as int] && (forall|j: int|
                0 <= j < i ==> !exists@[j]),
            Option::None => forall|j: int| 0 <= j < exists@.len() ==> !exists@[j],
        }),
{
    let mut i: usize = 0;
    while i < exists.len()
        invariant
            i <= exists@.len(),
            forall|j: int| 0 <= j < i ==> !exists@[j],
        decreases exists@.len() - i,
    {
        if exists[i] {
            return Some(i);
        }
        i = i + 1;
    }
    None
}

/// The connect timeout of the channel, in seconds.
pub fn connect_timeout_secs() -> (r: u64)
    ensures
        r == 10,
{
    10
}

/// The overall per-request timeout of the channel, in seconds.
pub fn request_timeout_secs() -> (r: u64)
    ensures
        r == 30,
{
    30
}

} // verus!
