//! The error body that the HTTP layer sends when a lookup fails.

use crate::geo::{rendered, LookupError};
use vstd::prelude::*;
use vstd::string::*;

verus! {

/// The decimal digits, in order.
pub const DIGITS: &'static str = "0123456789";

/// An HTTP status: its code and its reason phrase.
#[derive(Debug, PartialEq, Clone)]
pub struct HttpStatus {
    pub code: u16,
    pub reason: String,
}

/// The JSON error body: the status as text, a short title and the detail.
#[derive(Debug, PartialEq, Clone)]
pub struct ErrorResponse {
    pub status: String,
    pub title: String,
    pub detail: String,
}

/// The decimal digits of `n`, without leading zeros.
pub open spec fn decimal(n: nat) -> Seq<char>
    decreases n,
{
    if n < 10 {
        seq![DIGITS@[n as int]]
    } else {
        decimal(n / 10) + seq![DIGITS@[(n % 10) as int]]
    }
}

/// A status as text: its code, a space, and its reason phrase.
pub open spec fn status_text(status: HttpStatus) -> Seq<char> {
    decimal(status.code as nat) + " "@ + status.reason@
}

/// The decimal digits of `n`.
pub fn decimal_string(n: u16) -> (r: String)
    ensures
        r@ == decimal(n as nat),
    decreases n,
{
    proof {
        reveal_strlit("0123456789");
    }
    if n < 10 {
        let d = n as usize;
        DIGITS.substring_char(d, d + 1).to_owned()
    } else {
        let mut s = decimal_string(n / 10);
        let d = (n % 10) as usize;
        let last = DIGITS.substring_char(d, d + 1);
        proof {
            assert(last@ =~= seq![DIGITS@[d as int]]);
        }
        s.append(last);
        s
    }
}

impl HttpStatus {
    /// The status as text, as in `500 Internal Server Error`.
    pub fn text(&self) -> (r: String)
        ensures
            r@ == status_text(*self),
    {
        let mut s = decimal_string(self.code);
        s.append(" ");
        s.append(self.reason.as_str());
        s
    }
}

/// The status to answer with and the error body that goes with it.
pub fn error_response(status: HttpStatus, title: &str, detail: &str) -> (r: (HttpStatus, ErrorResponse))
    ensures
        r.0 == status,
        r.1.status@ == status_text(status),
        r.1.title@ == title@,
        r.1.detail@ == detail@,
{
    let text = status.text();
    (status, ErrorResponse { status: text, title: title.to_owned(), detail: detail.to_owned() })
}

/// The code of the status that every failed lookup is answered with.
pub const INTERNAL_SERVER_ERROR: u16 = 500;

/// The title of the body that every failed lookup is answered with.
pub const LOOKUP_FAILED_TITLE: &'static str = "IP Geolocation lookup failed";

/// The answer to a failed lookup: whatever went wrong, an internal server
/// error whose detail is the error's text.
pub fn lookup_failure(error: &LookupError) -> (r: (HttpStatus, ErrorResponse))
    ensures
        r.0.code == INTERNAL_SERVER_ERROR,
        r.0.reason@ == "Internal Server Error"@,
        r.1.status@ == status_text(r.0),
        r.1.title@ == LOOKUP_FAILED_TITLE@,
        r.1.detail@ == rendered(*error),
{
    let status = HttpStatus { code: INTERNAL_SERVER_ERROR, reason: "Internal Server Error".to_owned() };
    let detail = error.message();
    error_response(status, LOOKUP_FAILED_TITLE, detail.as_str())
}

} // verus!
