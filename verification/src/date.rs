//! The `Date` header: an instant written as an HTTP date.
use vstd::prelude::*;

verus! {

/// Seconds since the Unix epoch at which the year 10000 begins; an HTTP
/// date has four digits for the year, so only earlier instants can be
/// written.
pub const HTTP_DATE_LIMIT: u64 = 253402300800;

/// The IMF-fixdate text (`Sun, 06 Nov 1994 08:49:37 GMT`) of the instant
/// `secs` seconds after the Unix epoch, as `httpdate` formats it.
pub uninterp spec fn http_date_of(secs: nat) -> Seq<char>;

/// `httpdate::fmt_http_date` on the instant `secs` seconds after the Unix
/// epoch: the text depends on the instant alone. The call panics from the
/// year 10000 on, which the precondition rules out.
#[verifier::external_body]
fn fmt_http_date(secs: u64) -> (text: String)
    requires
        secs < HTTP_DATE_LIMIT,
    ensures
        text@ == http_date_of(secs as nat),
{
    httpdate::fmt_http_date(std::time::UNIX_EPOCH + std::time::Duration::from_secs(secs))
}

/// Writes the instant `secs` seconds after the Unix epoch as an HTTP date.
pub fn http_date(secs: u64) -> (text: String)
    requires
        secs < HTTP_DATE_LIMIT,
    ensures
        text@ == http_date_of(secs as nat),
{
    fmt_http_date(secs)
}

} // verus!
