//! The HTTP client used for session verification. The core only constructs
//! it and stores it in the shared state cell; the authentication requests
//! themselves are made by the accept subsystem, an external collaborator.

use vstd::prelude::*;

verus! {

/// External type: `reqwest::Client`, the HTTP client handle. Opaque to the
/// core; it is built once at startup and carried, never used here.
#[verifier::external_type_specification]
#[verifier::external_body]
pub struct ExHttpClient(reqwest::Client);

/// External type: `reqwest::Error`, what building the client reports on
/// failure.
#[verifier::external_type_specification]
#[verifier::external_body]
pub struct ExHttpError(reqwest::Error);

/// Relies on `reqwest::Client::builder` and `reqwest::ClientBuilder::build`:
/// constructs an HTTP client with default settings, reporting failure as an
/// error instead of panicking. The handle is opaque, so nothing is stated of
/// the value.
#[verifier::external_body]
pub fn build_http_client() -> (r: Result<reqwest::Client, reqwest::Error>) {
    reqwest::Client::builder().build()
}

} // verus!
