//! The scheme-prefix convention: callers pass a host+path without a scheme,
//! and the library prepends one explicitly rather than guessing.

use vstd::prelude::*;

verus! {

/// The given host+path with the `https` scheme prefixed.
pub fn https_url(host_and_path: &str) -> (r: String)
    ensures
        r@ == "https://"@ + host_and_path@,
{
    String::from_str("https://").concat(host_and_path)
}

/// The given host+path with the `http` scheme prefixed.
pub fn http_url(host_and_path: &str) -> (r: String)
    ensures
        r@ == "http://"@ + host_and_path@,
{
    String::from_str("http://").concat(host_and_path)
}

} // verus!
