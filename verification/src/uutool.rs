//! The UU online lookup backend: how its response is turned into a
//! result.
//!
//! The HTTP request and the response's decoding are a collaborator's
//! job; this module owns the interpretation of the decoded fields.

use vstd::prelude::*;

use crate::IPRegion;

verus! {

/// The risk block of a lookup response.
#[derive(Debug)]
pub struct Risk {
    pub risk_score: i64,
    pub risk_level: String,
    pub is_proxy: String,
    pub proxy_type: String,
    pub risk_tag: String,
}

/// Turns the decoded response fields into the dispatch outcome: a
/// non-zero response code fails with the response's own error message,
/// or the generic lookup error when it carries none; code zero succeeds
/// with the response's location and ISP.
pub fn interpret_uutool(
    ip: &str,
    code: i64,
    error: Option<String>,
    location: String,
    isp: String,
) -> (r: Result<IPRegion, String>)
    ensures
        code == 0 ==> (r matches Ok(reg) && reg.ip@ == ip@ && reg.region@ == location@
            && (reg.isp matches Some(a) && a@ == isp@)),
        code != 0 && error is Some ==> (r matches Err(m) && m@ == error->Some_0@),
        code != 0 && error is None ==> (r matches Err(m) && m@
            == "\u{67e5}\u{8be2}\u{51fa}\u{9519}"@),
{
    if code != 0 {
        match error {
            Some(e) => Err(e),
            None => Err("\u{67e5}\u{8be2}\u{51fa}\u{9519}".to_owned()),
        }
    } else {
        Ok(IPRegion::new(ip.to_owned(), location, Some(isp)))
    }
}

} // verus!
