//! The offline QQWry database backend: where its files live and how a
//! raw record is turned into a result.
//!
//! Reading the binary database itself is a collaborator's job; this
//! module owns the interpretation of what the collaborator hands back.

use vstd::prelude::*;

use crate::strutil::{replace_seq, replace_str, trim_spec, trim_str};
use crate::IPRegion;

verus! {

/// Where an up-to-date copy of the database is downloaded from.
pub const QQWRY_URL: &'static str = "https://raw.githubusercontent.com/FW27623/qqwry/main/qqwry.dat";

/// The database file's well-known path, before home expansion.
pub const QQWRY_FILEPATH: &'static str = "~/.cache/ipr/qqwry.dat";

/// A raw field of a database record, cleaned for display: `-` and `_`
/// become spaces, dashes and the `CZ88.NET` filler vanish, and the ends
/// are trimmed.
pub open spec fn clean_spec(s: Seq<char>) -> Seq<char> {
    trim_spec(
        replace_seq(
            replace_seq(replace_seq(replace_seq(s, "-"@, " "@), "\u{2013}"@, ""@), "_"@, " "@),
            "CZ88.NET"@,
            ""@,
        ),
    )
}

/// Cleans one raw record field for display.
pub fn clean_location(s: &str) -> (r: String)
    ensures
        r@ == clean_spec(s@),
{
    proof {
        reveal_strlit("-");
        reveal_strlit("\u{2013}");
        reveal_strlit("_");
        reveal_strlit("CZ88.NET");
    }
    let a = replace_str(s, "-", " ");
    let b = replace_str(a.as_str(), "\u{2013}", "");
    let c = replace_str(b.as_str(), "_", " ");
    let d = replace_str(c.as_str(), "CZ88.NET", "");
    let t = trim_str(d.as_str());
    t.to_owned()
}

/// Turns what the database lookup found — the record's country and area
/// fields, or nothing — into the dispatch outcome: a cleaned result, or
/// the no-match error.
pub fn interpret_qqwry(ip: &str, found: Option<(String, String)>) -> (r: Result<
    IPRegion,
    String,
>)
    ensures
        found matches Some(rec) ==> (r matches Ok(reg) && reg.ip@ == ip@ && reg.region@
            == clean_spec(rec.0@) && (reg.isp matches Some(a) && a@ == clean_spec(rec.1@))),
        found is None ==> (r matches Err(e) && e@ == "\u{672a}\u{67e5}\u{8be2}\u{5230}\u{7ed3}\u{679c}\u{ff01}"@),
{
    match found {
        Some(rec) => {
            let region = clean_location(rec.0.as_str());
            let area = clean_location(rec.1.as_str());
            Ok(IPRegion::new(ip.to_owned(), region, Some(area)))
        },
        None => Err("\u{672a}\u{67e5}\u{8be2}\u{5230}\u{7ed3}\u{679c}\u{ff01}".to_owned()),
    }
}

} // verus!
