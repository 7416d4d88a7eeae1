//! The decision logic around the outbound effectuation call.
//!
//! The HTTP client itself — token fetch and POST — lives outside this
//! crate; what is verified here is what gets sent and how the outcome maps
//! to the response handed back: the token request body is an exact
//! function of the credentials, and the service's answer is passed
//! through, with any transport error collapsing to a 500.

use vstd::prelude::*;
use vstd::string::*;

verus! {

/// The fixed scope and grant suffix of a token request.
pub open spec fn spec_token_suffix() -> Seq<char> {
    "&scope=api://dev-gcp.helved.utsjekk/.default&grant_type=client_credentials"@
}

/// The form-encoded body of a client-credentials token request.
pub open spec fn spec_token_request_body(client_id: Seq<char>, client_secret: Seq<char>) -> Seq<
    char,
> {
    "client_id="@ + client_id + "&client_secret="@ + client_secret + spec_token_suffix()
}

/// Builds the form-encoded body of the token request, exactly as
/// specified by [`spec_token_request_body`].
pub fn token_request_body(client_id: &str, client_secret: &str) -> (r: String)
    ensures
        r@ == spec_token_request_body(client_id@, client_secret@),
{
    let mut out = String::new();
    out.append("client_id=");
    out.append(client_id);
    out.append("&client_secret=");
    out.append(client_secret);
    out.append("&scope=api://dev-gcp.helved.utsjekk/.default&grant_type=client_credentials");
    assert(out@ =~= spec_token_request_body(client_id@, client_secret@));
    out
}

/// Maps the outcome of the effectuation POST to the response returned to
/// the caller: the service's own status and body pass through; a
/// transport error becomes a 500 with the error's text as body.
pub fn iverksett_response(result: Result<(u16, String), String>) -> (r: (u16, String))
    ensures
        match result {
            Result::Ok(sb) => r == sb,
            Result::Err(m) => r.0 == 500 && r.1 == m,
        },
{
    match result {
        Ok(sb) => sb,
        Err(m) => (500, m),
    }
}

} // verus!
