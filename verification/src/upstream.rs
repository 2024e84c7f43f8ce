//! Data contract of the upstream image-metadata API: the JSON envelope it
//! answers with, the possible outcomes of one fetch attempt, and the request
//! URL template. The network call itself is made outside this crate; the
//! handler consumes its outcome as a [`FetchOutcome`] value.

use vstd::prelude::*;
use vstd::string::StringExecFns;

verus! {

/// One decoded upstream response: an embedded status code (distinct from the
/// HTTP transport status), the image URL, and the image dimensions. Only the
/// URL is kept once the record is processed.
#[derive(Debug, PartialEq, Eq)]
pub struct ImageRecord {
    pub code: i32,
    pub url: String,
    pub width: i32,
    pub height: i32,
}

/// Mathematical model of an [`ImageRecord`].
pub struct SpecImageRecord {
    pub code: int,
    pub url: Seq<char>,
    pub width: int,
    pub height: int,
}

impl View for ImageRecord {
    type V = SpecImageRecord;

    open spec fn view(&self) -> SpecImageRecord {
        SpecImageRecord {
            code: self.code as int,
            url: self.url@,
            width: self.width as int,
            height: self.height as int,
        }
    }
}

/// What one attempt to fetch upstream metadata came to.
#[derive(Debug, PartialEq, Eq)]
pub enum FetchOutcome {
    /// The request could not be sent, or no response arrived.
    TransportFailure,
    /// A response arrived but its body did not decode into the expected
    /// JSON envelope.
    DecodeFailure,
    /// The body decoded into a record; its embedded status code may still
    /// indicate failure.
    Fetched(ImageRecord),
}

/// Mathematical model of a [`FetchOutcome`].
pub enum SpecFetchOutcome {
    TransportFailure,
    DecodeFailure,
    Fetched(SpecImageRecord),
}

impl View for FetchOutcome {
    type V = SpecFetchOutcome;

    open spec fn view(&self) -> SpecFetchOutcome {
        match self {
            FetchOutcome::TransportFailure => SpecFetchOutcome::TransportFailure,
            FetchOutcome::DecodeFailure => SpecFetchOutcome::DecodeFailure,
            FetchOutcome::Fetched(rec) => SpecFetchOutcome::Fetched(rec@),
        }
    }
}

/// The upstream endpoint queried for a device category.
pub open spec fn spec_upstream_url(device: Seq<char>) -> Seq<char> {
    "https://t.alcy.cc/"@ + device + "/?json"@
}

/// Builds the request URL for the upstream metadata endpoint: the fixed host,
/// the device category as a path segment, and the JSON format selector.
pub fn upstream_url(device: &str) -> (r: String)
    ensures
        r@ == spec_upstream_url(device@),
{
    let mut r = String::from_str("https://t.alcy.cc/");
    r.append(device);
    r.append("/?json");
    r
}

} // verus!
