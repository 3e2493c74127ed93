//! The IP138 online lookup backend: how the scraped result text is
//! turned into a result.
//!
//! The HTTP request, the pattern match over the page and the decoding
//! of the embedded object are a collaborator's job; this module owns
//! what happens around them: deciding that no result was found,
//! stripping the assignment prefix off the matched text, and cleaning
//! the extracted field.

use vstd::prelude::*;

use crate::strutil::{replace_seq, replace_str, str_strip_two_chars, strip_two_chars};
use crate::IPRegion;

verus! {

/// An empty pattern match means the page held no result: that is the
/// no-match error, before anything is decoded.
pub fn check_ip138_match(matched: &str) -> (r: Option<String>)
    ensures
        matched@.len() == 0 ==> (r matches Some(e) && e@
            == "\u{672a}\u{67e5}\u{8be2}\u{5230}\u{7ed3}\u{679c}\u{ff01}"@),
        matched@.len() > 0 ==> r is None,
{
    if matched.is_empty() {
        Some("\u{672a}\u{67e5}\u{8be2}\u{5230}\u{7ed3}\u{679c}\u{ff01}".to_owned())
    } else {
        None
    }
}

/// The matched text without its sixteen-character assignment prefix and
/// without semicolons: what remains is the embedded object, ready to be
/// decoded.
pub fn extract_ip138_payload(matched: &str) -> (r: String)
    requires
        matched@.len() >= 16,
    ensures
        r@ == replace_seq(matched@.skip(16), ";"@, ""@),
{
    let n = matched.unicode_len();
    let tail = matched.substring_char(16, n);
    proof {
        reveal_strlit(";");
        assert(matched@.subrange(16, n as int) =~= matched@.skip(16));
    }
    replace_str(tail, ";", "")
}

/// A field of the decoded object, cleaned: quotes and spaces removed.
pub fn process_field(s: &str) -> (r: String)
    ensures
        r@ == strip_two_chars(s@, '"', ' '),
{
    str_strip_two_chars(s, '"', ' ')
}

/// The result this backend reports: the queried address and the cleaned
/// locality field, with no ISP part.
pub fn ip138_region(ip: &str, field: &str) -> (r: IPRegion)
    ensures
        r.ip@ == ip@,
        r.region@ == strip_two_chars(field@, '"', ' '),
        r.isp is None,
{
    IPRegion::new(ip.to_owned(), process_field(field), None)
}

} // verus!
