//! A verified extraction pipeline: given the markup fetched for each security
//! identifier, it pulls a fixed set of fields out of the parsed document,
//! assembles them into a nine-column record, and serializes the records into
//! an append-only report, one identifier at a time under a fixed pacing delay.
pub mod extract;
pub mod markup;
pub mod record;
pub mod runner;
pub mod sink;
pub mod text;

use vstd::prelude::*;

verus! {

/// The query prefix that a request for one identifier appends the identifier to.
pub open spec fn base_url_spec() -> Seq<char> {
    "https://kabutan.jp/stock/?code="@
}

/// Builds the request address for one identifier by template substitution.
pub fn request_url(id: &str) -> (r: String)
    ensures
        r@ == base_url_spec() + id@,
{
    let mut r = String::from_str("https://kabutan.jp/stock/?code=");
    r.append(id);
    r
}

/// The pause between two identifiers' processing, in milliseconds.
pub fn default_delay_ms() -> (r: u64)
    ensures
        r == 5000,
{
    5000
}

} // verus!
