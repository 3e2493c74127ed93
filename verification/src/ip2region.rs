//! The offline ip2region database backend: where its files live and how
//! a raw region string is turned into a result.
//!
//! Searching the database file is a collaborator's job; this module owns
//! the interpretation of the raw `|`-separated region string.

use vstd::prelude::*;

use crate::strutil::{
    contains_char, join_parts_without, lemma_split_seq_len, push_char, split_seq, str_contains_char,
    str_eq_str,
};
use crate::IPRegion;

verus! {

/// Where an up-to-date copy of the database is downloaded from.
pub const XDB_URL: &'static str = "https://cdn.jsdelivr.net/gh/lionsoul2014/ip2region/data/ip2region.xdb";

/// The database file's well-known path, before home expansion.
pub const XDB_FILEPATH: &'static str = "~/.cache/ipr/ip2region.xdb";

/// The backend only holds IPv4 ranges; an address with a colon is
/// refused before the database is searched.
pub fn ip2region_precheck(ip: &str) -> (r: Option<String>)
    ensures
        contains_char(ip@, ':') ==> (r matches Some(e) && e@
            == "\u{6682}\u{4e0d}\u{652f}\u{6301}IPv6"@),
        !contains_char(ip@, ':') ==> r is None,
{
    if str_contains_char(ip, ':') {
        Some("\u{6682}\u{4e0d}\u{652f}\u{6301}IPv6".to_owned())
    } else {
        None
    }
}

/// The raw region string joined for display: its `|`-separated parts
/// without the `0` placeholders, concatenated in order.
pub fn join_region_parts(s: &str) -> (r: String)
    ensures
        r@ == join_parts_without(split_seq(s@, '|'), "0"@),
{
    let n = s.unicode_len();
    let mut out = String::new();
    let mut cur = String::new();
    let mut i: usize = 0;
    proof {
        assert(s@.take(0) =~= Seq::<char>::empty());
    }
    while i < n
        invariant
            0 <= i <= n,
            n == s@.len(),
            split_seq(s@.take(i as int), '|').len() >= 1,
            cur@ == split_seq(s@.take(i as int), '|').last(),
            out@ == join_parts_without(split_seq(s@.take(i as int), '|').drop_last(), "0"@),
        decreases n - i,
    {
        let ghost parts = split_seq(s@.take(i as int), '|');
        let c = s.get_char(i);
        proof {
            assert(s@.take(i + 1).drop_last() =~= s@.take(i as int));
            assert(s@.take(i + 1).last() == s@[i as int]);
        }
        if c == '|' {
            if !str_eq_str(cur.as_str(), "0") {
                out.append(cur.as_str());
            }
            cur = String::new();
            proof {
                assert(split_seq(s@.take(i + 1), '|') == parts.push(Seq::<char>::empty()));
                assert(parts.push(Seq::<char>::empty()).drop_last() =~= parts);
                assert(split_seq(s@.take(i + 1), '|').last() =~= Seq::<char>::empty());
            }
        } else {
            push_char(&mut cur, c);
            proof {
                let updated = parts.update(parts.len() - 1, parts.last().push(s@[i as int]));
                assert(split_seq(s@.take(i + 1), '|') == updated);
                assert(updated.drop_last() =~= parts.drop_last());
                assert(updated.last() == parts.last().push(s@[i as int]));
            }
        }
        i = i + 1;
        proof {
            lemma_split_seq_len(s@.take(i as int), '|');
        }
    }
    proof {
        assert(s@.take(n as int) =~= s@);
    }
    if !str_eq_str(cur.as_str(), "0") {
        out.append(cur.as_str());
    }
    out
}

/// Turns what the database search produced — the raw region string, or
/// the search's own error — into the dispatch outcome.
pub fn interpret_ip2region(ip: &str, found: Result<String, String>) -> (r: Result<
    IPRegion,
    String,
>)
    ensures
        found matches Ok(s) ==> (r matches Ok(reg) && reg.ip@ == ip@ && reg.region@
            == join_parts_without(split_seq(s@, '|'), "0"@) && reg.isp is None),
        found matches Err(e) ==> (r matches Err(m) && m@ == e@),
{
    match found {
        Ok(s) => {
            let region = join_region_parts(s.as_str());
            Ok(IPRegion::new(ip.to_owned(), region, None))
        },
        Err(e) => Err(e),
    }
}

} // verus!
