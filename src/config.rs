//! Where the service is and how the transport is set up to reach it.

use vstd::prelude::*;
use vstd::string::*;

verus! {

/// Base URL of the test environment.
pub const API_URL_TEST: &'static str = "https://appapi2.test.bankid.com/rp/v5.1";

/// Base URL of the production environment.
pub const API_URL_PROD: &'static str = "https://appapi2.bankid.com/rp/v5.1";

/// What a client is built from: the client identity, the base URL, the PEM
/// text of the trusted roots, and whether the system's roots are trusted too.
pub struct Config {
    pub identity: reqwest::Identity,
    pub url: String,
    pub ca: String,
    pub built_in_roots: bool,
}

impl Config {
    /// The production environment, trusting the roots written in `ca` and
    /// the system's roots.
    pub fn prod(identity: reqwest::Identity, ca: String) -> (r: Config)
        ensures
            r.identity == identity,
            r.url@ == API_URL_PROD@,
            r.ca@ == ca@,
            r.built_in_roots,
    {
        Config { identity, url: String::from_str(API_URL_PROD), ca, built_in_roots: true }
    }

    /// The test environment, trusting the roots written in `ca` and the
    /// system's roots.
    pub fn test(identity: reqwest::Identity, ca: String) -> (r: Config)
        ensures
            r.identity == identity,
            r.url@ == API_URL_TEST@,
            r.ca@ == ca@,
            r.built_in_roots,
    {
        Config { identity, url: String::from_str(API_URL_TEST), ca, built_in_roots: true }
    }
}

} // verus!
