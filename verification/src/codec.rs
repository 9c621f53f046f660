//! Frame codec: classifies inbound frames by their command line and builds
//! the outbound CONNECT, SUBSCRIBE and UNSUBSCRIBE frames.
//!
//! A frame is UTF-8 text: a command line, `key:value` header lines, a blank
//! line, an optional body, and a NUL terminator.

use vstd::prelude::*;

verus! {

/// True when `p` is a prefix of `s`.
pub open spec fn has_prefix(s: Seq<char>, p: Seq<char>) -> bool {
    p.len() <= s.len() && s.subrange(0, p.len() as int) == p
}

/// Prefix test on string slices, at character level.
pub fn str_has_prefix(s: &str, p: &str) -> (r: bool)
    ensures
        r == has_prefix(s@, p@),
{
    let n: usize = p.unicode_len();
    let m: usize = s.unicode_len();
    if m < n {
        return false;
    }
    let mut i: usize = 0;
    while i < n
        invariant
            i <= n,
            n == p@.len(),
            n <= s@.len(),
            forall|j: int| 0 <= j < i ==> s@[j] == p@[j],
        decreases n - i,
    {
        if s.get_char(i) != p.get_char(i) {
            assert(s@.subrange(0, p@.len() as int)[i as int] == s@[i as int]);
            return false;
        }
        i = i + 1;
    }
    assert(s@.subrange(0, p@.len() as int) =~= p@);
    true
}

/// The kind of an inbound frame, read off its command line.
#[derive(Clone, Copy, Debug, PartialEq, Eq, Structural)]
pub enum TossStompResponseType {
    Connected,
    Message,
    Receipt,
    Unknown,
}

/// What `TossStompResponseType::from_header` returns for a given header text.
pub open spec fn classify(text: Seq<char>) -> TossStompResponseType {
    if has_prefix(text, "CONNECTED"@) {
        TossStompResponseType::Connected
    } else if has_prefix(text, "MESSAGE"@) {
        TossStompResponseType::Message
    } else if has_prefix(text, "RECEIPT"@) {
        TossStompResponseType::Receipt
    } else {
        TossStompResponseType::Unknown
    }
}

impl TossStompResponseType {
    /// Classify an inbound frame by the prefix of its first line. Text that
    /// matches no known command is `Unknown`, never an error.
    pub fn from_header(header: &str) -> (r: Self)
        ensures
            r == classify(header@),
    {
        if str_has_prefix(header, "CONNECTED") {
            Self::Connected
        } else if str_has_prefix(header, "MESSAGE") {
            Self::Message
        } else if str_has_prefix(header, "RECEIPT") {
            Self::Receipt
        } else {
            Self::Unknown
        }
    }
}

/// The character for a single decimal digit.
pub open spec fn digit_char(d: nat) -> char {
    if d == 0 {
        '0'
    } else if d == 1 {
        '1'
    } else if d == 2 {
        '2'
    } else if d == 3 {
        '3'
    } else if d == 4 {
        '4'
    } else if d == 5 {
        '5'
    } else if d == 6 {
        '6'
    } else if d == 7 {
        '7'
    } else if d == 8 {
        '8'
    } else {
        '9'
    }
}

/// The decimal representation of `n`, most significant digit first,
/// without leading zeros (a single `'0'` for zero).
pub open spec fn dec_rep(n: nat) -> Seq<char>
    decreases n,
{
    if n < 10 {
        seq![digit_char(n)]
    } else {
        dec_rep(n / 10).push(digit_char(n % 10))
    }
}

/// The one-character string for a decimal digit.
fn digit_str(d: u32) -> (r: &'static str)
    requires
        d < 10,
    ensures
        r@ == seq![digit_char(d as nat)],
{
    proof {
        reveal_strlit("0");
        reveal_strlit("1");
        reveal_strlit("2");
        reveal_strlit("3");
        reveal_strlit("4");
        reveal_strlit("5");
        reveal_strlit("6");
        reveal_strlit("7");
        reveal_strlit("8");
        reveal_strlit("9");
    }
    let r: &'static str = match d {
        0 => "0",
        1 => "1",
        2 => "2",
        3 => "3",
        4 => "4",
        5 => "5",
        6 => "6",
        7 => "7",
        8 => "8",
        _ => "9",
    };
    proof {
        assert(r@ =~= seq![digit_char(d as nat)]);
    }
    r
}

/// Appends the decimal representation of `n` to `out`.
pub fn push_dec(out: &mut String, n: u32)
    ensures
        final(out)@ == old(out)@ + dec_rep(n as nat),
    decreases n,
{
    if n < 10 {
        out.append(digit_str(n));
        proof {
            assert(out@ =~= old(out)@ + dec_rep(n as nat));
        }
    } else {
        push_dec(out, n / 10);
        out.append(digit_str(n % 10));
        proof {
            assert(out@ =~= old(out)@ + dec_rep(n as nat));
        }
    }
}

/// The CONNECT frame for the given credentials: fixed protocol versions,
/// a 5000 ms heartbeat proposal in each direction, NUL-terminated.
pub open spec fn connect_frame(device_id: Seq<char>, connection_id: Seq<char>, auth_token: Seq<char>) -> Seq<char> {
    "CONNECT\ndevice-id:"@ + device_id + "\nconnection-id:"@ + connection_id
        + "\nauthorization:"@ + auth_token
        + "\naccept-version:1.2,1.1,1.0\nheart-beat:5000,5000\n\n\x00\n"@
}

/// The SUBSCRIBE frame for a wire ID and a feed identifier: the `receipt`
/// header is the wire ID followed by `-sub_receipt`, the destination the
/// fixed trade topic for that feed.
pub open spec fn subscribe_frame(wire_id: nat, feed_id: Seq<char>) -> Seq<char> {
    "SUBSCRIBE\nid:"@ + dec_rep(wire_id) + "\nreceipt:"@ + dec_rep(wire_id)
        + "-sub_receipt\ndestination:/topic/v1/us/stock/trade/"@ + feed_id + "\n\n\x00"@
}

/// The UNSUBSCRIBE frame for a wire ID, with `receipt` and `id` headers
/// matching the SUBSCRIBE that allocated the ID.
pub open spec fn unsubscribe_frame(wire_id: nat) -> Seq<char> {
    "UNSUBSCRIBE\nreceipt:"@ + dec_rep(wire_id) + "-sub_receipt\nid:"@ + dec_rep(wire_id)
        + "\n\n\x00\n"@
}

/// Builds the CONNECT frame. Pure formatting; no failure mode.
pub fn build_connect(device_id: &str, connection_id: &str, auth_token: &str) -> (r: String)
    ensures
        r@ == connect_frame(device_id@, connection_id@, auth_token@),
{
    let mut f = String::from_str("CONNECT\ndevice-id:");
    f.append(device_id);
    f.append("\nconnection-id:");
    f.append(connection_id);
    f.append("\nauthorization:");
    f.append(auth_token);
    f.append("\naccept-version:1.2,1.1,1.0\nheart-beat:5000,5000\n\n\x00\n");
    proof {
        assert(f@ =~= connect_frame(device_id@, connection_id@, auth_token@));
    }
    f
}

/// Builds the SUBSCRIBE frame for a wire ID and a feed identifier.
pub fn build_subscribe(wire_id: u32, feed_id: &str) -> (r: String)
    ensures
        r@ == subscribe_frame(wire_id as nat, feed_id@),
{
    let mut f = String::from_str("SUBSCRIBE\nid:");
    push_dec(&mut f, wire_id);
    f.append("\nreceipt:");
    push_dec(&mut f, wire_id);
    f.append("-sub_receipt\ndestination:/topic/v1/us/stock/trade/");
    f.append(feed_id);
    f.append("\n\n\x00");
    proof {
        assert(f@ =~= subscribe_frame(wire_id as nat, feed_id@));
    }
    f
}

/// Builds the UNSUBSCRIBE frame for a wire ID.
pub fn build_unsubscribe(wire_id: u32) -> (r: String)
    ensures
        r@ == unsubscribe_frame(wire_id as nat),
{
    let mut f = String::from_str("UNSUBSCRIBE\nreceipt:");
    push_dec(&mut f, wire_id);
    f.append("-sub_receipt\nid:");
    push_dec(&mut f, wire_id);
    f.append("\n\n\x00\n");
    proof {
        assert(f@ =~= unsubscribe_frame(wire_id as nat));
    }
    f
}

} // verus!
