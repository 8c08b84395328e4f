//! A typed client library for the Dropbox Paper HTTP API.
//!
//! The library is organised around a strict split between pure, verified
//! logic and effectful transport: every function here builds requests or
//! decodes responses as plain values, and the caller performs the actual
//! network round trip.

use vstd::prelude::*;

pub mod auth;
pub mod errors;
pub mod form;
pub mod http;
pub mod json;
pub mod paper;

use paper::Paper;

verus! {

/// The top-level client handle: owns the bearer credential and shares it,
/// read-only, with every sub-resource client.
pub struct Dropbox {
    pub access_token: String,
    pub paper: Paper,
}

impl http::HasAccessToken for Dropbox {
    open spec fn spec_token(&self) -> Seq<char> {
        self.access_token@
    }

    fn access_token(&self) -> &str {
        self.access_token.as_str()
    }
}

impl Dropbox {
    pub fn new(access_token: &str) -> (r: Dropbox)
        ensures
            r.access_token@ == access_token@,
            r.paper.access_token@ == access_token@,
    {
        Dropbox { access_token: access_token.to_owned(), paper: Paper::new(access_token) }
    }

    /// The Paper namespace of this client; it reads the same credential.
    pub fn paper(&self) -> (r: &Paper)
        ensures
            r == self.paper,
    {
        &self.paper
    }
}

} // verus!
