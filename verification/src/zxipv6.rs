//! The IPv6 online lookup backend: how its response is turned into a
//! result.
//!
//! The HTTP request and the response's decoding are a collaborator's
//! job; this module owns the interpretation of the decoded fields.

use vstd::prelude::*;

use crate::strutil::{replace_seq, replace_str};
use crate::IPRegion;

verus! {

/// Turns the decoded response fields into the dispatch outcome: a
/// non-zero response code fails with the generic lookup error; code
/// zero succeeds with the response's location, its tabs turned into
/// spaces. A response with code zero always carries its data block.
pub fn interpret_zxipv6(ip: &str, code: i64, location: Option<String>) -> (r: Result<
    IPRegion,
    String,
>)
    requires
        code == 0 ==> location is Some,
    ensures
        code != 0 ==> (r matches Err(e) && e@ == "\u{67e5}\u{8be2}\u{51fa}\u{9519}"@),
        code == 0 ==> (r matches Ok(reg) && reg.ip@ == ip@ && reg.region@ == replace_seq(
            location->Some_0@,
            "\t"@,
            " "@,
        ) && reg.isp is None),
{
    if code != 0 {
        Err("\u{67e5}\u{8be2}\u{51fa}\u{9519}".to_owned())
    } else {
        proof {
            reveal_strlit("\t");
        }
        let loc = match location {
            Some(l) => l,
            None => String::new(),
        };
        let region = replace_str(loc.as_str(), "\t", " ");
        Ok(IPRegion::new(ip.to_owned(), region, None))
    }
}

} // verus!
