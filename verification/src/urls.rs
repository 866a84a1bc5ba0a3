//! The three places the backend's port appears: the spawn arguments handed to
//! the child process, the health-check URL, and the navigation URL.
//!
//! All three are built from the one rendering in [`crate::digits`], so they
//! are guaranteed to name the same backend instance.

use vstd::prelude::*;
use vstd::string::StringExecFns;

use crate::digits::dec_digits;
use crate::digits::dec_string;
use crate::digits::digits_value;
use crate::digits::lemma_dec_digits_value;

verus! {

/// The decimal rendering of `port` used everywhere the port is mentioned.
pub open spec fn port_digits(port: u16) -> Seq<char> {
    dec_digits(port as nat)
}

/// The health-check URL: `http://127.0.0.1:<port>/api/health`.
pub open spec fn health_url_spec(port: u16) -> Seq<char> {
    "http://127.0.0.1:"@ + port_digits(port) + "/api/health"@
}

/// The navigation URL the window loads once the backend is healthy:
/// `http://127.0.0.1:<port>`.
pub open spec fn base_url_spec(port: u16) -> Seq<char> {
    "http://127.0.0.1:"@ + port_digits(port)
}

/// The argument list for spawning the sidecar: the port, the loopback host,
/// and the flag that keeps the backend from opening its own browser.
pub open spec fn spawn_args_spec(port: u16) -> Seq<Seq<char>> {
    seq!["--port"@, port_digits(port), "--host"@, "127.0.0.1"@, "--no-browser"@]
}

/// Builds the health-check URL for `port`.
pub fn health_url(port: u16) -> (r: String)
    ensures
        r@ == health_url_spec(port),
{
    let mut s = String::from_str("http://127.0.0.1:");
    let p = dec_string(port as u64);
    s.append(p.as_str());
    s.append("/api/health");
    proof {
        assert(s@ =~= health_url_spec(port));
    }
    s
}

/// Builds the navigation URL for `port`.
pub fn base_url(port: u16) -> (r: String)
    ensures
        r@ == base_url_spec(port),
{
    let mut s = String::from_str("http://127.0.0.1:");
    let p = dec_string(port as u64);
    s.append(p.as_str());
    proof {
        assert(s@ =~= base_url_spec(port));
    }
    s
}

/// Builds the sidecar's command-line arguments for `port`.
pub fn spawn_args(port: u16) -> (r: Vec<String>)
    ensures
        r@.len() == spawn_args_spec(port).len(),
        forall|i: int| 0 <= i < r@.len() ==> r@[i]@ == spawn_args_spec(port)[i],
{
    let mut v: Vec<String> = Vec::new();
    v.push(String::from_str("--port"));
    v.push(dec_string(port as u64));
    v.push(String::from_str("--host"));
    v.push(String::from_str("127.0.0.1"));
    v.push(String::from_str("--no-browser"));
    v
}

/// Every mention of the port carries the identical digit sequence
/// `port_digits(port)` — in the spawn arguments, the health-check URL and the
/// navigation URL — and that digit sequence denotes `port` itself.
pub proof fn lemma_port_consistency(port: u16)
    ensures
        spawn_args_spec(port)[1] == port_digits(port),
        health_url_spec(port) == "http://127.0.0.1:"@ + port_digits(port) + "/api/health"@,
        base_url_spec(port) == "http://127.0.0.1:"@ + port_digits(port),
        digits_value(port_digits(port)) == port as nat,
{
    lemma_dec_digits_value(port as nat);
}

} // verus!
