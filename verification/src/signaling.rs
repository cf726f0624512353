//! The connection to the signaling server: what its refusals mean, when to try
//! again, and what comes over it.
use vstd::prelude::*;

#[allow(unused_imports)]
use crate::json::json_text;
use crate::protocol::ClientMsg;
use crate::text::{contains, from_utf8_lossy, to_decimal};
#[allow(unused_imports)]
use crate::text::{decimal, found_at, lossy_text, occurs};

verus! {

/// How often an idle connection is pinged.
pub const PING_SECS: u64 = 20;

/// How long a command waits for the greeting.
pub const HELLO_WAIT_MS: u64 = 5000;

/// The words for an HTTP status that refuses the connection.
pub open spec fn refusal_words(code: u16) -> Seq<char> {
    if code == 503 {
        "server is currently inactive (503)"@
    } else if code == 426 {
        "this sociacli build is below the server's minimum version (426) — run `sociacli update`"@
    } else {
        "server rejected the connection (HTTP "@ + decimal(code as nat) + ")"@
    }
}

/// Puts an HTTP status that refuses the connection in words.
pub fn refusal(code: u16) -> (r: String)
    ensures
        r@ == refusal_words(code),
{
    if code == 503 {
        "server is currently inactive (503)".to_owned()
    } else if code == 426 {
        "this sociacli build is below the server's minimum version (426) — run `sociacli update`".to_owned()
    } else {
        "server rejected the connection (HTTP ".to_owned().concat(
            to_decimal(code as u64).as_str(),
        ).concat(")")
    }
}

/// Whether a failure to connect means that this build is too old.
pub open spec fn is_too_old(error: Seq<char>) -> bool {
    occurs(error, "(426)"@)
}

/// The pause after the first failure to connect.
pub const FIRST_PAUSE_MS: u64 = 500;

/// The longest pause.
pub const LONGEST_PAUSE_MS: u64 = 30_000;

/// The pause after the next failure: twice as long, up to the longest.
pub open spec fn longer(pause: int) -> int {
    if 2 * pause < LONGEST_PAUSE_MS {
        2 * pause
    } else {
        LONGEST_PAUSE_MS as int
    }
}

/// What follows a failure to connect.
#[derive(Debug, Clone, Copy, PartialEq, Eq, Structural)]
pub enum Retry {
    /// Try again after `pause` milliseconds; `next` is the pause after that.
    After { pause: u64, next: u64 },
    /// Do not try again: only an update can help.
    NeedsUpdate,
}

/// What follows a failure to connect after a pause.
pub open spec fn retry_of(error: Seq<char>, pause: u64) -> Retry {
    if is_too_old(error) {
        Retry::NeedsUpdate
    } else {
        Retry::After { pause, next: longer(pause as int) as u64 }
    }
}

/// Goes on after a failure to connect. A build that is too old stops trying,
/// since nothing changes until it is updated.
pub fn connect_failed(error: &str, pause: u64) -> (r: Retry)
    requires
        pause <= LONGEST_PAUSE_MS,
    ensures
        r == retry_of(error@, pause),
{
    if contains(error, "(426)") {
        Retry::NeedsUpdate
    } else {
        let next = if 2 * pause < LONGEST_PAUSE_MS {
            2 * pause
        } else {
            LONGEST_PAUSE_MS
        };
        Retry::After { pause, next }
    }
}

/// Pauses never shrink and never exceed the longest.
pub proof fn pauses_grow_to_the_longest(pause: int)
    requires
        FIRST_PAUSE_MS <= pause <= LONGEST_PAUSE_MS,
    ensures
        pause <= longer(pause) <= LONGEST_PAUSE_MS,
{
}

/// The digits of a number are digits.
proof fn lemma_decimal_digits(n: nat, i: int)
    requires
        0 <= i < decimal(n).len(),
    ensures
        '0' <= decimal(n)[i] <= '9',
    decreases n,
{
    if n >= 10 {
        if i < decimal(n / 10).len() {
            lemma_decimal_digits(n / 10, i);
        }
    }
}

/// Of all refusals only the one for an old build stops the daemon from trying
/// again.
pub proof fn only_old_builds_stop_trying(code: u16)
    ensures
        is_too_old(refusal_words(code)) <==> code == 426,
{
    let mark = "(426)"@;
    reveal_strlit("(426)");
    if code == 426 {
        reveal_strlit(
            "this sociacli build is below the server's minimum version (426) — run `sociacli update`",
        );
        assert(refusal_words(code).subrange(58, 63) =~= mark);
        assert(found_at(refusal_words(code), mark, 58));
    } else if code == 503 {
        reveal_strlit("server is currently inactive (503)");
        let hay = refusal_words(code);
        assert forall|at: int| !found_at(hay, mark, at) by {
            if found_at(hay, mark, at) {
                assert(hay.subrange(at, at + mark.len())[0] == hay[at]);
                assert(hay.subrange(at, at + mark.len())[1] == hay[at + 1]);
                assert(hay[at] == '(');
                assert(at == 29);
            }
        }
    } else {
        reveal_strlit("server rejected the connection (HTTP ");
        reveal_strlit(")");
        let head = "server rejected the connection (HTTP "@;
        let digits = decimal(code as nat);
        let hay = refusal_words(code);
        assert forall|at: int| !found_at(hay, mark, at) by {
            if found_at(hay, mark, at) {
                assert(hay.subrange(at, at + mark.len())[0] == hay[at]);
                assert(hay.subrange(at, at + mark.len())[1] == hay[at + 1]);
                assert(hay[at] == '(');
                if at < head.len() {
                    assert(hay[at] == head[at]);
                    assert(at == 31);
                    assert(hay[at + 1] == head[at + 1]);
                } else if at < head.len() + digits.len() {
                    assert(hay[at] == digits[at - head.len()]);
                    lemma_decimal_digits(code as nat, at - head.len());
                }
            }
        }
    }
}

// ---- frames ----

/// A frame of the connection.
pub enum WsFrame {
    Text(String),
    Binary(Vec<u8>),
    /// A ping, a pong, or a part of a frame.
    Control,
    Close,
}

/// What is done with a frame.
pub enum FrameStep {
    /// Read it as a message; one that cannot be read is dropped.
    Read(String),
    Skip,
    Close,
}

/// Whether what follows a frame is the right thing.
pub open spec fn frame_heard(f: WsFrame, r: FrameStep) -> bool {
    match f {
        WsFrame::Text(s) => r matches FrameStep::Read(t) && t@ == s@,
        WsFrame::Binary(b) => r matches FrameStep::Read(t) && t@ == lossy_text(b@),
        WsFrame::Control => r is Skip,
        WsFrame::Close => r is Close,
    }
}

/// Looks at a frame. A binary one is text too, as far as it is UTF-8.
pub fn on_frame(f: WsFrame) -> (r: FrameStep)
    ensures
        frame_heard(f, r),
{
    match f {
        WsFrame::Text(s) => FrameStep::Read(s),
        WsFrame::Binary(b) => FrameStep::Read(from_utf8_lossy(&b)),
        WsFrame::Control => FrameStep::Skip,
        WsFrame::Close => FrameStep::Close,
    }
}

/// The text of a message to the server.
pub fn send(msg: &ClientMsg) -> (r: String)
    ensures
        r@ == json_text(msg@),
{
    msg.frame().to_text()
}

} // verus!
