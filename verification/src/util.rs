//! The progress indicator's rendering, home-directory expansion and the
//! IPv6 zero-group padding.

use vstd::prelude::*;

use crate::strutil::{
    count_groups, has_double_char, repeat_seq, repeat_str, replace_seq, replace_str,
    str_count_groups, str_has_double_char,
};

verus! {

/// The control sequence that clears the terminal's current line and
/// returns the cursor to its start.
pub open spec fn clear_line_spec() -> Seq<char> {
    "\r\x1B[2K"@
}

/// Returns the clear-current-line control sequence.
pub fn clear_current_line_seq() -> (r: String)
    ensures
        r@ == clear_line_spec(),
{
    "\r\x1B[2K".to_owned()
}

/// A cancellable progress line: while a resolution is in flight the
/// animation alternates between the full message and the message with
/// its trailing `blink` characters blanked. Cancelling yields the
/// clear-line sequence and ends the animation: no further frame can be
/// rendered, so nothing of the animation survives on the line when the
/// next output is printed.
#[derive(Debug)]
pub struct ProgressIndicator {
    pub msg: String,
    pub blink: usize,
    pub active: bool,
}

impl ProgressIndicator {
    /// The blinked part never exceeds the message.
    pub open spec fn wf(&self) -> bool {
        self.blink <= self.msg@.len()
    }

    /// Starts a progress line over the given status message, blinking
    /// its last `blink` characters.
    pub fn start(msg: String, blink: usize) -> (r: Self)
        requires
            blink <= msg@.len(),
        ensures
            r.wf(),
            r.active,
            r.msg@ == msg@,
            r.blink == blink,
    {
        Self { msg, blink, active: true }
    }

    /// The frame that shows the whole message.
    pub fn frame_shown(&self) -> (r: String)
        requires
            self.active,
        ensures
            r@ == self.msg@,
    {
        self.msg.clone()
    }

    /// The blanked frame: the message with its trailing `blink`
    /// characters replaced by spaces.
    pub open spec fn blanked_spec(&self) -> Seq<char> {
        self.msg@.take(self.msg@.len() - self.blink as int) + repeat_seq(
            " "@,
            self.blink as nat,
        )
    }

    /// Renders the blanked frame.
    pub fn frame_blanked(&self) -> (r: String)
        requires
            self.active,
            self.wf(),
        ensures
            r@ == self.blanked_spec(),
    {
        let n = self.msg.as_str().unicode_len();
        let head = self.msg.as_str().substring_char(0, n - self.blink);
        let mut r = head.to_owned();
        let pad = repeat_str(" ", self.blink);
        r.append(pad.as_str());
        r
    }

    /// Ends the animation. The caller must print the returned clear-line
    /// sequence (and nothing of the animation after it) before any
    /// further output, so the line is clean when that output appears.
    pub fn cancel(&mut self) -> (r: String)
        requires
            old(self).active,
        ensures
            !final(self).active,
            r@ == clear_line_spec(),
    {
        self.active = false;
        clear_current_line_seq()
    }
}

/// A leading `~` expanded: every `~` of `p` replaced by `home`;
/// untouched when `p` does not start with `~`.
pub open spec fn replace_home_spec(p: Seq<char>, home: Seq<char>) -> Seq<char> {
    if p.len() > 0 && p[0] == '~' {
        replace_seq(p, "~"@, home)
    } else {
        p
    }
}

/// Expands `~` to the given home directory in a path that starts
/// with `~`.
pub fn replace_home(p: &str, home: &str) -> (r: String)
    ensures
        r@ == replace_home_spec(p@, home@),
{
    let n = p.unicode_len();
    if n > 0 && p.get_char(0) == '~' {
        proof {
            reveal_strlit("~");
        }
        replace_str(p, "~", home)
    } else {
        p.to_owned()
    }
}

/// An IPv6 address with its `::` expanded: enough `:0:` groups are
/// inserted to reach eight groups, the leftover doubled colons collapse
/// to single ones, and a trailing colon is dropped. An address without
/// `::` is returned unchanged.
pub open spec fn padding_spec(s: Seq<char>) -> Seq<char>
    recommends
        has_double_char(s, ':') ==> count_groups(s, ':') <= 8,
{
    if has_double_char(s, ':') {
        let n = (8 - count_groups(s, ':')) as nat;
        let expanded = replace_seq(s, "::"@, repeat_seq(":0:"@, n));
        let collapsed = replace_seq(expanded, "::"@, ":"@);
        if collapsed.len() > 0 && collapsed.last() == ':' {
            collapsed.drop_last()
        } else {
            collapsed
        }
    } else {
        s
    }
}

/// Pads the `::` shorthand of an IPv6 address out to all eight groups.
/// An address with more than eight groups around a `::` is not a
/// well-formed address and is left out here.
pub fn padding_ipv6(ip: &str) -> (r: String)
    requires
        has_double_char(ip@, ':') ==> count_groups(ip@, ':') <= 8,
    ensures
        r@ == padding_spec(ip@),
{
    if str_has_double_char(ip, ':') {
        proof {
            reveal_strlit("::");
            reveal_strlit(":");
            reveal_strlit(":0:");
        }
        let groups = str_count_groups(ip, ':');
        let pad = repeat_str(":0:", 8 - groups);
        let expanded = replace_str(ip, "::", pad.as_str());
        let collapsed = replace_str(expanded.as_str(), "::", ":");
        let n = collapsed.as_str().unicode_len();
        if n > 0 && collapsed.as_str().get_char(n - 1) == ':' {
            let head = collapsed.as_str().substring_char(0, n - 1);
            proof {
                assert(collapsed@.subrange(0, n - 1) =~= collapsed@.drop_last());
            }
            head.to_owned()
        } else {
            collapsed
        }
    } else {
        ip.to_owned()
    }
}

} // verus!
