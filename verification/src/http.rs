//! The HTTP client that the agent's requests go through, and what the
//! library needs to know of a request and of a status code.
//!
//! The client is `reqwest::Client`.  This library builds it and hands it to
//! the program, which sends the requests; of the client itself nothing is
//! known here.

use vstd::prelude::*;

verus! {

/// `reqwest::Client`, carried through as it is.
#[verifier::external_type_specification]
#[verifier::external_body]
pub struct ExHttpClient(reqwest::Client);

/// `reqwest::Error`, carried through as it is.
#[verifier::external_type_specification]
#[verifier::external_body]
pub struct ExHttpError(reqwest::Error);

/// Builds a client with `reqwest::Client::builder`, `ClientBuilder::timeout`
/// and `ClientBuilder::build`, the timeout being `timeout_seconds` whole
/// seconds.  The build fails where the TLS backend or the resolver cannot be
/// set up, so nothing is promised of the outcome.
#[verifier::external_body]
pub(crate) fn build_http_client(timeout_seconds: u64) -> Result<reqwest::Client, reqwest::Error> {
    reqwest::Client::builder().timeout(std::time::Duration::from_secs(timeout_seconds)).build()
}

/// The text that `reqwest::Error` shows of itself through `Display`.
/// Nothing is promised of the text.
#[verifier::external_body]
pub(crate) fn http_error_text(error: &reqwest::Error) -> String {
    error.to_string()
}

/// A name and a value: a header of a request, or a field of a form.
#[derive(Debug, Clone, PartialEq, Eq)]
pub struct Field {
    pub name: String,
    pub value: String,
}

impl View for Field {
    type V = (Seq<char>, Seq<char>);

    open spec fn view(&self) -> (Seq<char>, Seq<char>) {
        (self.name@, self.value@)
    }
}

/// The fields as pairs of texts, in order.
pub open spec fn field_texts(fields: Seq<Field>) -> Seq<(Seq<char>, Seq<char>)> {
    Seq::new(fields.len(), |i: int| fields[i]@)
}

/// A field made of two texts.
pub fn field(name: &str, value: &str) -> (out: Field)
    ensures
        out@ == (name@, value@),
{
    Field { name: crate::text::owned(name), value: crate::text::owned(value) }
}

/// A status code of the range 200 to 299.
pub open spec fn success_status(status: u16) -> bool {
    200 <= status < 300
}

/// Whether a status code reports success.
pub fn is_success_status(status: u16) -> (yes: bool)
    ensures
        yes == success_status(status),
{
    300 > status && status >= 200
}

} // verus!
