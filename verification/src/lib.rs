pub mod ip138;
pub mod ip2region;
pub mod qqwry;
pub mod shell;
pub mod strutil;
pub mod util;
pub mod uutool;
pub mod zxipv6;

use vstd::prelude::*;

use crate::strutil::{contains_char, count_char, str_contains_char, str_count_char};

verus! {

/// Identifies one resolution backend, or the aggregate of all of them.
/// The two offline variants carry an optional override for the path of
/// their database file; `ALL` is expanded by the aggregation driver and
/// is never dispatched directly.
#[derive(Debug, Clone)]
pub enum SearchProviderEnum {
    IP138,
    UUTool,
    IP2Region(Option<String>),
    QQWry(Option<String>),
    ALL,
}

impl SearchProviderEnum {
    /// The display name of this backend, as a sequence of characters.
    pub open spec fn source_spec(&self) -> Seq<char> {
        match self {
            SearchProviderEnum::IP138 => "IP138.COM"@,
            SearchProviderEnum::UUTool => "UUTOOL.CN"@,
            SearchProviderEnum::IP2Region(_) => "IP2REGION"@,
            SearchProviderEnum::QQWry(_) => "QQWRY"@,
            SearchProviderEnum::ALL => "ALL"@,
        }
    }

    /// Returns the display name of this backend.
    pub fn get_source(&self) -> (r: String)
        ensures
            r@ == self.source_spec(),
    {
        match self {
            SearchProviderEnum::IP138 => "IP138.COM".to_owned(),
            SearchProviderEnum::UUTool => "UUTOOL.CN".to_owned(),
            SearchProviderEnum::IP2Region(_) => "IP2REGION".to_owned(),
            SearchProviderEnum::QQWry(_) => "QQWRY".to_owned(),
            SearchProviderEnum::ALL => "ALL".to_owned(),
        }
    }
}

/// Carries the active backend of one resolution session.
#[derive(Debug)]
pub struct Searcher {
    pub search_provider: SearchProviderEnum,
}

impl Searcher {
    /// A searcher over the given backend.
    pub fn new(search_provider: SearchProviderEnum) -> (r: Self)
        ensures
            r.search_provider == search_provider,
    {
        Self { search_provider }
    }

    /// Which concrete backend a dispatch must contact. `ALL` is not a
    /// backend of its own and is refused here; the aggregation driver
    /// expands it instead.
    pub fn dispatch_target(&self) -> (r: Result<BackendTarget, String>)
        ensures
            self.search_provider is UUTool ==> r == Ok::<BackendTarget, String>(
                BackendTarget::UUTool,
            ),
            self.search_provider is IP138 ==> r == Ok::<BackendTarget, String>(
                BackendTarget::IP138,
            ),
            self.search_provider matches SearchProviderEnum::QQWry(p) ==> r == Ok::<
                BackendTarget,
                String,
            >(BackendTarget::QQWry(p)),
            self.search_provider matches SearchProviderEnum::IP2Region(p) ==> r == Ok::<
                BackendTarget,
                String,
            >(BackendTarget::IP2Region(p)),
            self.search_provider is ALL ==> (r matches Err(m) && m@
                == "Enum ALL is not implemented"@),
    {
        match &self.search_provider {
            SearchProviderEnum::UUTool => Ok(BackendTarget::UUTool),
            SearchProviderEnum::IP138 => Ok(BackendTarget::IP138),
            SearchProviderEnum::QQWry(p) => Ok(
                BackendTarget::QQWry(
                    match p {
                        Some(q) => Some(q.clone()),
                        None => None,
                    },
                ),
            ),
            SearchProviderEnum::IP2Region(p) => Ok(
                BackendTarget::IP2Region(
                    match p {
                        Some(q) => Some(q.clone()),
                        None => None,
                    },
                ),
            ),
            SearchProviderEnum::ALL => Err("Enum ALL is not implemented".to_owned()),
        }
    }
}

/// One concrete backend to contact for a single resolution, with the
/// database path override for the offline ones.
#[derive(Debug)]
pub enum BackendTarget {
    IP138,
    UUTool,
    IP2Region(Option<String>),
    QQWry(Option<String>),
}

/// Result of a successful resolution: the address echoed back, the
/// locality, and an optional ISP descriptor.
#[derive(Debug)]
pub struct IPRegion {
    pub ip: String,
    pub region: String,
    pub isp: Option<String>,
}

impl IPRegion {
    /// Packs the three parts of a resolution result.
    pub fn new(ip: String, region: String, isp: Option<String>) -> (r: Self)
        ensures
            r.ip == ip,
            r.region == region,
            r.isp == isp,
    {
        Self { ip, region, isp }
    }

    /// The one output line for this result: with the address echoed it is
    /// `ip [region]` or `ip [region isp]`, without it `region` or
    /// `region isp`.
    pub open spec fn display_spec(&self, echo_ip: bool) -> Seq<char> {
        if echo_ip {
            match self.isp {
                Some(isp) => self.ip@ + " ["@ + self.region@ + " "@ + isp@ + "]"@,
                None => self.ip@ + " ["@ + self.region@ + "]"@,
            }
        } else {
            match self.isp {
                Some(isp) => self.region@ + " "@ + isp@,
                None => self.region@,
            }
        }
    }

    /// Renders the result line, echoing the queried address if asked to.
    pub fn display(&self, echo_ip: bool) -> (r: String)
        ensures
            r@ == self.display_spec(echo_ip),
    {
        let mut r = String::new();
        if echo_ip {
            r.append(self.ip.as_str());
            r.append(" [");
            r.append(self.region.as_str());
            match &self.isp {
                Some(isp) => {
                    r.append(" ");
                    r.append(isp.as_str());
                },
                None => {},
            }
            r.append("]");
        } else {
            r.append(self.region.as_str());
            match &self.isp {
                Some(isp) => {
                    r.append(" ");
                    r.append(isp.as_str());
                },
                None => {},
            }
        }
        r
    }
}

/// One line of query output, split by stream: results go to standard
/// output, errors to the diagnostic stream.
#[derive(Debug)]
pub enum OutLine {
    Stdout(String),
    Diag(String),
}

/// The view of an output line.
pub enum OutLineView {
    Stdout(Seq<char>),
    Diag(Seq<char>),
}

impl View for OutLine {
    type V = OutLineView;

    open spec fn view(&self) -> OutLineView {
        match self {
            OutLine::Stdout(s) => OutLineView::Stdout(s@),
            OutLine::Diag(s) => OutLineView::Diag(s@),
        }
    }
}

/// The line a settled dispatch prints: the rendered result on success,
/// `[ERR] <message>.` on the diagnostic stream on failure.
pub open spec fn report_spec(outcome: Result<IPRegion, String>, echo_ip: bool) -> OutLineView {
    match outcome {
        Ok(reg) => OutLineView::Stdout(reg.display_spec(echo_ip)),
        Err(e) => OutLineView::Diag("[ERR] "@ + e@ + "."@),
    }
}

/// Renders the one line a settled dispatch prints.
pub fn search_report(outcome: &Result<IPRegion, String>, echo_ip: bool) -> (l: OutLine)
    ensures
        l@ == report_spec(*outcome, echo_ip),
{
    match outcome {
        Ok(reg) => OutLine::Stdout(reg.display(echo_ip)),
        Err(e) => {
            let mut m = "[ERR] ".to_owned();
            m.append(e.as_str());
            m.append(".");
            OutLine::Diag(m)
        },
    }
}

/// The fixed order in which aggregation tries every backend.
pub open spec fn aggregation_order_spec() -> Seq<SearchProviderEnum> {
    seq![
        SearchProviderEnum::QQWry(None),
        SearchProviderEnum::IP2Region(None),
        SearchProviderEnum::IP138,
        SearchProviderEnum::UUTool,
    ]
}

/// The providers aggregation queries, in their fixed order: offline
/// database A, offline database B, live backend A, live backend B.
pub fn aggregation_order() -> (r: Vec<SearchProviderEnum>)
    ensures
        r@ == aggregation_order_spec(),
{
    let mut r: Vec<SearchProviderEnum> = Vec::new();
    r.push(SearchProviderEnum::QQWry(None));
    r.push(SearchProviderEnum::IP2Region(None));
    r.push(SearchProviderEnum::IP138);
    r.push(SearchProviderEnum::UUTool);
    proof {
        assert(r@ =~= aggregation_order_spec());
    }
    r
}

/// The lines aggregation prints, two per settled outcome: the outcome's
/// own line, then the provider's display name. No outcome is dropped and
/// the order of the input is kept.
pub fn aggregate_report(
    outcomes: &Vec<(SearchProviderEnum, Result<IPRegion, String>)>,
    echo_ip: bool,
) -> (r: Vec<OutLine>)
    ensures
        r@.len() == 2 * outcomes@.len(),
        forall|i: int|
            0 <= i < outcomes@.len() ==> r@[2 * i]@ == report_spec(
                (#[trigger] outcomes@[i]).1,
                echo_ip,
            ),
        forall|i: int|
            0 <= i < outcomes@.len() ==> r@[2 * i + 1]@ == OutLineView::Stdout(
                (#[trigger] outcomes@[i]).0.source_spec(),
            ),
{
    let n = outcomes.len();
    let mut r: Vec<OutLine> = Vec::new();
    let mut k: usize = 0;
    while k < n
        invariant
            0 <= k <= n,
            n == outcomes@.len(),
            r@.len() == 2 * k,
            forall|i: int|
                0 <= i < k ==> r@[2 * i]@ == report_spec((#[trigger] outcomes@[i]).1, echo_ip),
            forall|i: int|
                0 <= i < k ==> r@[2 * i + 1]@ == OutLineView::Stdout(
                    (#[trigger] outcomes@[i]).0.source_spec(),
                ),
        decreases n - k,
    {
        let pair = &outcomes[k];
        r.push(search_report(&pair.1, echo_ip));
        r.push(OutLine::Stdout(pair.0.get_source()));
        k = k + 1;
    }
    r
}

/// A syntactically acceptable address: it holds a colon (a candidate
/// IPv6 address), or it splits into exactly four dot-separated parts
/// (a candidate IPv4 address).
pub open spec fn valid_address_spec(s: Seq<char>) -> bool {
    contains_char(s, ':') || count_char(s, '.') == 3
}

/// The syntactic check every one-shot dispatch makes before contacting
/// any provider.
pub fn validate_address(ip: &str) -> (r: bool)
    ensures
        r == valid_address_spec(ip@),
{
    if str_contains_char(ip, ':') {
        return true;
    }
    str_count_char(ip, '.') == 3
}

/// The backend the one-shot invocation selects from its flags, and
/// whether it must aggregate over every backend. At most one flag is
/// set; with none set the offline QQWry database is the default.
pub fn choose_provider(
    uutool: bool,
    ip2region: bool,
    ip138: bool,
    all: bool,
    ip2region_db_path: String,
    qqwry_db_path: String,
) -> (r: (Searcher, bool))
    ensures
        uutool ==> r.0.search_provider == SearchProviderEnum::UUTool,
        !uutool && ip2region ==> (r.0.search_provider matches SearchProviderEnum::IP2Region(p)
            && p matches Some(q) && q@ == ip2region_db_path@),
        !uutool && !ip2region && ip138 ==> r.0.search_provider == SearchProviderEnum::IP138,
        !uutool && !ip2region && !ip138 && all ==> r.0.search_provider
            == SearchProviderEnum::ALL,
        !uutool && !ip2region && !ip138 && !all ==> (r.0.search_provider
            matches SearchProviderEnum::QQWry(p) && p matches Some(q) && q@ == qqwry_db_path@),
        r.1 == (!uutool && !ip2region && !ip138 && all),
{
    if uutool {
        (Searcher::new(SearchProviderEnum::UUTool), false)
    } else if ip2region {
        (Searcher::new(SearchProviderEnum::IP2Region(Some(ip2region_db_path))), false)
    } else if ip138 {
        (Searcher::new(SearchProviderEnum::IP138), false)
    } else if all {
        (Searcher::new(SearchProviderEnum::ALL), true)
    } else {
        (Searcher::new(SearchProviderEnum::QQWry(Some(qqwry_db_path))), false)
    }
}

} // verus!
