//! The interactive resolution shell: a state machine from the current
//! shell state and one input line to the next state and the action the
//! surrounding loop must perform.
//!
//! The machine itself does no input or output. The loop around it reads
//! lines, performs the returned actions (print, dispatch, persist, exit)
//! and feeds the next line back in.

use vstd::prelude::*;

use crate::strutil::{
    last_token, lower_seq, starts_with_spec, str_eq_str, str_last_token, str_starts_with,
    to_ascii_lowercase, trim_spec, trim_str,
};
use crate::{Searcher, SearchProviderEnum};

verus! {

/// One line read from standard input, with whether standard input was
/// attached to a terminal when the line was read.
#[derive(Debug)]
pub struct InputEvent {
    pub line: String,
    pub interactive: bool,
}

/// What a freshly started process does after its first, non-blocking
/// poll of the input queue: a line already waiting means a piped
/// one-shot query; nothing waiting means an interactive session.
#[derive(Debug)]
pub enum StartupMode {
    OneShot(String),
    Interactive,
}

/// Classifies the startup poll of the input queue.
pub fn classify_startup(first: Option<InputEvent>) -> (m: StartupMode)
    ensures
        first matches Some(ev) ==> (m matches StartupMode::OneShot(ip) && ip@ == ev.line@),
        first is None ==> m is Interactive,
{
    match first {
        Some(ev) => StartupMode::OneShot(ev.line),
        None => StartupMode::Interactive,
    }
}

/// The last address loaded from the persisted-state file; an absent file
/// means no last address.
pub fn seed_last_ip(loaded: Option<String>) -> (r: String)
    ensures
        loaded matches Some(s) ==> r@ == s@,
        loaded is None ==> r@ == Seq::<char>::empty(),
{
    match loaded {
        Some(s) => s,
        None => String::new(),
    }
}

/// An input line as the shell interprets it: trimmed, with ASCII
/// letters lowered.
pub open spec fn normalize_spec(raw: Seq<char>) -> Seq<char> {
    lower_seq(trim_spec(raw))
}

/// Normalizes one raw input line before interpretation.
pub fn normalize_line(raw: &str) -> (r: String)
    ensures
        r@ == normalize_spec(raw@),
{
    let t = trim_str(raw);
    to_ascii_lowercase(t)
}

/// What the shell loop must do with a line the state machine has
/// interpreted.
#[derive(Debug)]
pub enum ShellAction {
    /// An empty line: only show the prompt again.
    Prompt,
    /// Leave the loop; a non-empty last address is persisted first.
    Exit { persist: Option<String> },
    /// Print the static help text.
    Help,
    /// The active backend changed; print its display name.
    Switched { source: String },
    /// The channel name is not known; the backend did not change.
    ChannelError { channel: String },
    /// Print the active backend's display name.
    Info { source: String },
    /// `!!` without any previously submitted address.
    RepeatError,
    /// Resolve `ip`; `update_shared` says whether the shared last-address
    /// cell must be set to `ip` before dispatching.
    Dispatch { ip: String, echo_ip: bool, update_shared: bool },
}

/// The view of a shell action, over character sequences.
pub enum SpecAction {
    Prompt,
    Exit { persist: Option<Seq<char>> },
    Help,
    Switched { source: Seq<char> },
    ChannelError { channel: Seq<char> },
    Info { source: Seq<char> },
    RepeatError,
    Dispatch { ip: Seq<char>, echo_ip: bool, update_shared: bool },
}

impl View for ShellAction {
    type V = SpecAction;

    open spec fn view(&self) -> SpecAction {
        match self {
            ShellAction::Prompt => SpecAction::Prompt,
            ShellAction::Exit { persist } => SpecAction::Exit {
                persist: match persist {
                    Some(s) => Some(s@),
                    None => None,
                },
            },
            ShellAction::Help => SpecAction::Help,
            ShellAction::Switched { source } => SpecAction::Switched { source: source@ },
            ShellAction::ChannelError { channel } => SpecAction::ChannelError {
                channel: channel@,
            },
            ShellAction::Info { source } => SpecAction::Info { source: source@ },
            ShellAction::RepeatError => SpecAction::RepeatError,
            ShellAction::Dispatch { ip, echo_ip, update_shared } => SpecAction::Dispatch {
                ip: ip@,
                echo_ip: *echo_ip,
                update_shared: *update_shared,
            },
        }
    }
}

/// The state of the interactive shell: the active backend, the last
/// submitted address, and whether the session has ended.
#[derive(Debug)]
pub struct ShellState {
    pub searcher: Searcher,
    pub last_ip: String,
    pub exited: bool,
}

/// The view of a shell state.
#[verifier::ext_equal]
pub struct ShellView {
    pub provider: SearchProviderEnum,
    pub last_ip: Seq<char>,
    pub exited: bool,
}

impl View for ShellState {
    type V = ShellView;

    open spec fn view(&self) -> ShellView {
        ShellView {
            provider: self.searcher.search_provider,
            last_ip: self.last_ip@,
            exited: self.exited,
        }
    }
}

/// The line ends the session.
pub open spec fn is_quit(l: Seq<char>) -> bool {
    l == "q"@ || l == "exit"@ || l == "quit"@
}

/// The line asks for the help text.
pub open spec fn is_help(l: Seq<char>) -> bool {
    l == "help"@ || l == "h"@
}

/// The line asks for a channel switch.
pub open spec fn is_select(l: Seq<char>) -> bool {
    starts_with_spec(l, "select"@)
}

/// The line asks for the active backend's name.
pub open spec fn is_info(l: Seq<char>) -> bool {
    l == "info"@ || l == "i"@
}

/// The line repeats the last submitted address.
pub open spec fn is_repeat(l: Seq<char>) -> bool {
    l == "!!"@
}

/// The line is taken as a literal address: it is none of the commands
/// and not empty.
pub open spec fn is_address_line(l: Seq<char>) -> bool {
    l.len() > 0 && !is_quit(l) && !is_help(l) && !is_select(l) && !is_info(l) && !is_repeat(l)
}

/// The channel name a `select` line carries: its last space-separated
/// token, trimmed.
pub open spec fn select_channel(l: Seq<char>) -> Seq<char> {
    trim_spec(last_token(l, ' '))
}

/// The backend a channel name selects, if the name is known.
pub open spec fn channel_provider(c: Seq<char>) -> Option<SearchProviderEnum> {
    if c == "ip138"@ {
        Some(SearchProviderEnum::IP138)
    } else if c == "ip2region"@ {
        Some(SearchProviderEnum::IP2Region(None))
    } else if c == "uutool"@ {
        Some(SearchProviderEnum::UUTool)
    } else if c == "qqwry"@ {
        Some(SearchProviderEnum::QQWry(None))
    } else {
        None
    }
}

/// One step of the shell state machine: the next state and the action
/// for one normalized input line, by the command precedence quit, help,
/// select, info, repeat, address.
pub open spec fn spec_step(s: ShellView, line: Seq<char>) -> (ShellView, SpecAction) {
    if line.len() == 0 {
        (s, SpecAction::Prompt)
    } else if is_quit(line) {
        (
            ShellView { exited: true, ..s },
            SpecAction::Exit {
                persist: if s.last_ip.len() > 0 {
                    Some(s.last_ip)
                } else {
                    None
                },
            },
        )
    } else if is_help(line) {
        (s, SpecAction::Help)
    } else if is_select(line) {
        match channel_provider(select_channel(line)) {
            Some(p) => (
                ShellView { provider: p, ..s },
                SpecAction::Switched { source: p.source_spec() },
            ),
            None => (s, SpecAction::ChannelError { channel: select_channel(line) }),
        }
    } else if is_info(line) {
        (s, SpecAction::Info { source: s.provider.source_spec() })
    } else if is_repeat(line) {
        if s.last_ip.len() == 0 {
            (s, SpecAction::RepeatError)
        } else {
            (s, SpecAction::Dispatch { ip: s.last_ip, echo_ip: false, update_shared: false })
        }
    } else {
        (
            ShellView { last_ip: line, ..s },
            SpecAction::Dispatch { ip: line, echo_ip: false, update_shared: true },
        )
    }
}

impl ShellState {
    /// A fresh, running shell over the given backend, seeded with the
    /// loaded last address.
    pub fn new(searcher: Searcher, last_ip: String) -> (r: Self)
        ensures
            r@.provider == searcher.search_provider,
            r@.last_ip == last_ip@,
            !r@.exited,
    {
        Self { searcher, last_ip, exited: false }
    }

    /// Interprets one normalized input line.
    pub fn step(&mut self, line: &str) -> (a: ShellAction)
        requires
            !old(self)@.exited,
        ensures
            final(self)@ == spec_step(old(self)@, line@).0,
            a@ == spec_step(old(self)@, line@).1,
    {
        if line.is_empty() {
            return ShellAction::Prompt;
        }
        if str_eq_str(line, "q") || str_eq_str(line, "exit") || str_eq_str(line, "quit") {
            let persist = if self.last_ip.as_str().is_empty() {
                None
            } else {
                Some(self.last_ip.clone())
            };
            self.exited = true;
            return ShellAction::Exit { persist };
        }
        if str_eq_str(line, "help") || str_eq_str(line, "h") {
            return ShellAction::Help;
        }
        if str_starts_with(line, "select") {
            let token = str_last_token(line, ' ');
            let channel = trim_str(token);
            if str_eq_str(channel, "ip138") {
                self.searcher = Searcher::new(SearchProviderEnum::IP138);
            } else if str_eq_str(channel, "ip2region") {
                self.searcher = Searcher::new(SearchProviderEnum::IP2Region(None));
            } else if str_eq_str(channel, "uutool") {
                self.searcher = Searcher::new(SearchProviderEnum::UUTool);
            } else if str_eq_str(channel, "qqwry") {
                self.searcher = Searcher::new(SearchProviderEnum::QQWry(None));
            } else {
                return ShellAction::ChannelError { channel: channel.to_owned() };
            }
            let source = self.searcher.search_provider.get_source();
            return ShellAction::Switched { source };
        }
        if str_eq_str(line, "info") || str_eq_str(line, "i") {
            return ShellAction::Info { source: self.searcher.search_provider.get_source() };
        }
        if str_eq_str(line, "!!") {
            if self.last_ip.as_str().is_empty() {
                return ShellAction::RepeatError;
            }
            return ShellAction::Dispatch {
                ip: self.last_ip.clone(),
                echo_ip: false,
                update_shared: false,
            };
        }
        self.last_ip = line.to_owned();
        ShellAction::Dispatch { ip: line.to_owned(), echo_ip: false, update_shared: true }
    }
}

/// Selecting an unknown channel name never changes the shell state: the
/// active provider stays what it was, and only the channel error is
/// reported.
pub proof fn lemma_invalid_select_keeps_state(s: ShellView, line: Seq<char>)
    requires
        is_select(line),
        channel_provider(select_channel(line)) is None,
    ensures
        spec_step(s, line).0 == s,
        spec_step(s, line).1 == (SpecAction::ChannelError { channel: select_channel(line) }),
{
    reveal_strlit("select");
    reveal_strlit("q");
    reveal_strlit("exit");
    reveal_strlit("quit");
    reveal_strlit("help");
    reveal_strlit("h");
}

/// `!!` without a previously submitted address only reports the error:
/// nothing is dispatched and the state does not change.
pub proof fn lemma_repeat_without_history(s: ShellView, line: Seq<char>)
    requires
        is_repeat(line),
        s.last_ip.len() == 0,
    ensures
        spec_step(s, line).0 == s,
        spec_step(s, line).1 == SpecAction::RepeatError,
{
    reveal_strlit("!!");
    reveal_strlit("q");
    reveal_strlit("exit");
    reveal_strlit("quit");
    reveal_strlit("help");
    reveal_strlit("h");
    reveal_strlit("select");
    reveal_strlit("info");
    reveal_strlit("i");
}

/// Persisted-address round trip: an address submitted in one session
/// becomes the last address, quitting persists exactly that address, and
/// a fresh session seeded with it re-dispatches it on `!!` before any
/// new submission.
pub proof fn lemma_persisted_round_trip(
    s: ShellView,
    x: Seq<char>,
    q: Seq<char>,
    fresh: ShellView,
    r: Seq<char>,
)
    requires
        is_address_line(x),
        is_quit(q),
        is_repeat(r),
        fresh.last_ip == x,
    ensures
        spec_step(s, x).0.last_ip == x,
        spec_step(spec_step(s, x).0, q).1 == (SpecAction::Exit { persist: Some(x) }),
        spec_step(fresh, r).1 == (SpecAction::Dispatch {
            ip: x,
            echo_ip: false,
            update_shared: false,
        }),
{
    reveal_strlit("!!");
    reveal_strlit("q");
    reveal_strlit("exit");
    reveal_strlit("quit");
    reveal_strlit("help");
    reveal_strlit("h");
    reveal_strlit("select");
    reveal_strlit("info");
    reveal_strlit("i");
}

/// What the shell does when the input queue closes: a piped session
/// re-resolves its last non-empty line and exits cleanly, an empty pipe
/// is an error on the diagnostic stream, and a closed queue in an
/// interactive session is a fatal channel failure.
#[derive(Debug)]
pub enum ClosedAction {
    ResolveLast(String),
    EmptyPipeError,
    ChannelClosedError,
}

/// Decides what to do when the input queue closes.
pub fn on_channel_closed(is_pipe: bool, last_input: &str) -> (r: ClosedAction)
    ensures
        is_pipe && last_input@.len() > 0 ==> (r matches ClosedAction::ResolveLast(ip) && ip@
            == last_input@),
        is_pipe && last_input@.len() == 0 ==> r is EmptyPipeError,
        !is_pipe ==> r is ChannelClosedError,
{
    if is_pipe {
        if last_input.is_empty() {
            ClosedAction::EmptyPipeError
        } else {
            ClosedAction::ResolveLast(last_input.to_owned())
        }
    } else {
        ClosedAction::ChannelClosedError
    }
}

} // verus!
