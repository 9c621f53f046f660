//! Inbound frame parsing: splitting a payload into header block and body at
//! the first blank line, stripping NUL terminators from a body, and looking
//! a header value up by its key.

use vstd::prelude::*;
use crate::codec::has_prefix;
use crate::codec::str_has_prefix;
use crate::codec::dec_rep;
use crate::codec::digit_char;

verus! {

/// Index of the first occurrence of `c` in `s`, or -1 when `s` has none.
pub open spec fn find_char(s: Seq<char>, c: char) -> int
    decreases s.len(),
{
    if s.len() == 0 {
        -1
    } else if s[0] == c {
        0
    } else if find_char(s.skip(1), c) < 0 {
        -1
    } else {
        1 + find_char(s.skip(1), c)
    }
}

/// `find_char` returns -1 or a valid index holding `c`, with no earlier `c`.
pub proof fn lemma_find_char_spec(s: Seq<char>, c: char)
    ensures
        find_char(s, c) == -1 || (0 <= find_char(s, c) < s.len() && s[find_char(s, c)] == c),
        find_char(s, c) == -1 ==> forall|j: int| 0 <= j < s.len() ==> s[j] != c,
    decreases s.len(),
{
    if s.len() == 0 {
    } else if s[0] == c {
    } else {
        lemma_find_char_spec(s.skip(1), c);
        assert forall|j: int| 1 <= j < s.len() implies s.skip(1)[j - 1] == s[j] by {}
    }
}

/// Where a scan has ruled `c` out before `i`, `find_char` is decided at `i`.
proof fn lemma_find_char_at(s: Seq<char>, c: char, i: int)
    requires
        0 <= i <= s.len(),
        forall|j: int| 0 <= j < i ==> s[j] != c,
        i < s.len() ==> s[i] == c,
    ensures
        find_char(s, c) == if i == s.len() { -1 as int } else { i },
    decreases i,
{
    if s.len() == 0 {
    } else if i == 0 {
    } else {
        assert forall|j: int| 0 <= j < i - 1 implies s.skip(1)[j] != c by {
            assert(s.skip(1)[j] == s[j + 1]);
        }
        assert(i - 1 < s.skip(1).len() ==> s.skip(1)[i - 1] == s[i]);
        lemma_find_char_at(s.skip(1), c, i - 1);
    }
}

/// Index of the first character of `c` in `s`, if any.
pub fn index_of_char(s: &str, c: char) -> (r: Option<usize>)
    ensures
        r is None ==> find_char(s@, c) == -1,
        r matches Some(i) ==> find_char(s@, c) == i as int,
{
    let n: usize = s.unicode_len();
    let mut i: usize = 0;
    while i < n
        invariant
            i <= n,
            n == s@.len(),
            forall|j: int| 0 <= j < i ==> s@[j] != c,
        decreases n - i,
    {
        if s.get_char(i) == c {
            proof {
                lemma_find_char_at(s@, c, i as int);
            }
            return Some(i);
        }
        i = i + 1;
    }
    proof {
        lemma_find_char_at(s@, c, n as int);
    }
    None
}

/// Index of the first blank-line separator (two consecutive newlines) in
/// `s`, or -1 when `s` has none.
pub open spec fn sep_pos(s: Seq<char>) -> int
    decreases s.len(),
{
    if s.len() < 2 {
        -1
    } else if s[0] == '\n' && s[1] == '\n' {
        0
    } else if sep_pos(s.skip(1)) < 0 {
        -1
    } else {
        1 + sep_pos(s.skip(1))
    }
}

/// Where a scan has ruled a separator out before `i`, `sep_pos` is decided
/// at `i`.
proof fn lemma_sep_pos_at(s: Seq<char>, i: int)
    requires
        0 <= i,
        i + 1 <= s.len(),
        forall|j: int| 0 <= j < i ==> !(#[trigger] s[j] == '\n' && s[j + 1] == '\n'),
        i + 1 < s.len() ==> s[i] == '\n' && s[i + 1] == '\n',
    ensures
        sep_pos(s) == if i + 1 == s.len() { -1 as int } else { i },
    decreases i,
{
    if s.len() < 2 {
    } else if i == 0 {
    } else {
        assert forall|j: int| 0 <= j < i - 1 implies !(#[trigger] s.skip(1)[j] == '\n' && s.skip(
            1,
        )[j + 1] == '\n') by {
            assert(s.skip(1)[j] == s[j + 1]);
            assert(s.skip(1)[j + 1] == s[j + 2]);
        }
        assert(i < s.skip(1).len() ==> s.skip(1)[i - 1] == s[i] && s.skip(1)[i] == s[i + 1]);
        lemma_sep_pos_at(s.skip(1), i - 1);
    }
}

/// Splits an inbound payload into its header block and its body at the
/// first blank line. A payload with no blank line is malformed: `None`.
pub fn split_frame(text: &str) -> (r: Option<(String, String)>)
    ensures
        r is None <==> sep_pos(text@) == -1,
        r matches Some(hb) ==> {
            &&& hb.0@ == text@.subrange(0, sep_pos(text@))
            &&& hb.1@ == text@.subrange(sep_pos(text@) + 2, text@.len() as int)
        },
{
    let n: usize = text.unicode_len();
    if n < 2 {
        assert(sep_pos(text@) == -1);
        return None;
    }
    let mut i: usize = 0;
    while i + 1 < n
        invariant
            i + 1 <= n,
            n == text@.len(),
            2 <= n,
            forall|j: int| 0 <= j < i ==> !(#[trigger] text@[j] == '\n' && text@[j + 1] == '\n'),
        decreases n - i,
    {
        if text.get_char(i) == '\n' && text.get_char(i + 1) == '\n' {
            proof {
                lemma_sep_pos_at(text@, i as int);
            }
            let header = text.substring_char(0, i);
            let body = text.substring_char(i + 2, n);
            return Some((String::from_str(header), String::from_str(body)));
        }
        i = i + 1;
    }
    proof {
        lemma_sep_pos_at(text@, (n - 1) as int);
    }
    None
}

/// `s` with every NUL character removed.
pub open spec fn strip_nuls(s: Seq<char>) -> Seq<char> {
    s.filter(|c: char| c != '\x00')
}

/// Removes every NUL character, leaving the rest of `text` in order.
pub fn remove_nuls(text: &str) -> (r: String)
    ensures
        r@ == strip_nuls(text@),
{
    let n: usize = text.unicode_len();
    let mut out = String::new();
    let mut i: usize = 0;
    while i < n
        invariant
            i <= n,
            n == text@.len(),
            out@ == text@.subrange(0, i as int).filter(|c: char| c != '\x00'),
        decreases n - i,
    {
        let c = text.get_char(i);
        if c != '\x00' {
            let piece = text.substring_char(i, i + 1);
            out.append(piece);
            proof {
                assert(piece@ =~= seq![text@[i as int]]);
            }
        }
        proof {
            reveal(Seq::filter);
            let pred = |c: char| c != '\x00';
            let longer = text@.subrange(0, i + 1);
            assert(longer.drop_last() =~= text@.subrange(0, i as int));
            assert(longer.last() == text@[i as int]);
            if text@[i as int] != '\x00' {
                assert(longer.filter(pred) =~= text@.subrange(0, i as int).filter(pred).push(
                    text@[i as int]));
            }
        }
        i = i + 1;
    }
    proof {
        assert(text@.subrange(0, n as int) =~= text@);
    }
    out
}

/// The value of the first line of `text` that begins with `kp` (a header
/// key with its trailing colon): the rest of that line.
pub open spec fn find_header(text: Seq<char>, kp: Seq<char>) -> Option<Seq<char>>
    decreases text.len(),
    via find_header_decreases
{
    let nl = find_char(text, '\n');
    if nl < 0 {
        if has_prefix(text, kp) {
            Some(text.skip(kp.len() as int))
        } else {
            None
        }
    } else {
        let line = text.subrange(0, nl);
        if has_prefix(line, kp) {
            Some(line.skip(kp.len() as int))
        } else {
            find_header(text.subrange(nl + 1, text.len() as int), kp)
        }
    }
}

#[via_fn]
proof fn find_header_decreases(text: Seq<char>, kp: Seq<char>) {
    lemma_find_char_spec(text, '\n');
}

/// The value of `key` in the header block of a frame: the command line is
/// skipped, then the first later line starting with `key` and a colon
/// yields everything after that colon.
pub open spec fn header_value_spec(text: Seq<char>, key: Seq<char>) -> Option<Seq<char>> {
    let nl = find_char(text, '\n');
    if nl < 0 {
        None
    } else {
        find_header(text.subrange(nl + 1, text.len() as int), key + ":"@)
    }
}

/// Looks `kp` (key plus colon) up among the lines of `text`.
fn find_header_exec(text: &str, kp: &str) -> (r: Option<String>)
    ensures
        r is None <==> find_header(text@, kp@) is None,
        r matches Some(v) ==> find_header(text@, kp@) == Some(v@),
    decreases text@.len(),
{
    let n: usize = text.unicode_len();
    let kn: usize = kp.unicode_len();
    match index_of_char(text, '\n') {
        None => {
            if str_has_prefix(text, kp) {
                Some(String::from_str(text.substring_char(kn, n)))
            } else {
                None
            }
        },
        Some(i) => {
            proof {
                lemma_find_char_spec(text@, '\n');
            }
            let line = text.substring_char(0, i);
            if str_has_prefix(line, kp) {
                Some(String::from_str(line.substring_char(kn, i)))
            } else {
                find_header_exec(text.substring_char(i + 1, n), kp)
            }
        },
    }
}

/// Recovers the value of a header from a frame's header block: the first
/// line after the command line that starts with `key` followed by a colon.
/// `None` when the frame has no command line or no such header.
pub fn header_value(text: &str, key: &str) -> (r: Option<String>)
    ensures
        r is None <==> header_value_spec(text@, key@) is None,
        r matches Some(v) ==> header_value_spec(text@, key@) == Some(v@),
{
    let n: usize = text.unicode_len();
    match index_of_char(text, '\n') {
        None => None,
        Some(i) => {
            proof {
                lemma_find_char_spec(text@, '\n');
            }
            let rest = text.substring_char(i + 1, n);
            let kp = String::from_str(key).concat(":");
            find_header_exec(rest, kp.as_str())
        },
    }
}

/// Every character of a decimal representation is a digit.
pub proof fn lemma_dec_rep_digits(n: nat)
    ensures
        forall|i: int|
            0 <= i < dec_rep(n).len() ==> is_decimal_digit(#[trigger] dec_rep(n)[i]),
    decreases n,
{
    let d = dec_rep(n);
    if n < 10 {
        assert(d[0] == digit_char(n));
    } else {
        lemma_dec_rep_digits(n / 10);
        let p = dec_rep(n / 10);
        assert forall|i: int| 0 <= i < d.len() implies is_decimal_digit(d[i]) by {
            if i < p.len() {
                assert(d[i] == p[i]);
            } else {
                assert(d[i] == digit_char(n % 10));
            }
        }
    }
}

/// One of the ten digit characters.
pub open spec fn is_decimal_digit(c: char) -> bool {
    c == '0' || c == '1' || c == '2' || c == '3' || c == '4' || c == '5' || c == '6' || c == '7'
        || c == '8' || c == '9'
}

/// A line that starts with `kp` yields the rest of that line.
proof fn lemma_find_header_hit(kp: Seq<char>, v: Seq<char>, tail: Seq<char>)
    requires
        forall|i: int| 0 <= i < kp.len() ==> kp[i] != '\n',
        forall|i: int| 0 <= i < v.len() ==> v[i] != '\n',
    ensures
        find_header(kp + v + seq!['\n'] + tail, kp) == Some(v),
{
    let text = kp + v + seq!['\n'] + tail;
    let nl = kp.len() + v.len();
    assert(text[nl as int] == '\n');
    assert forall|j: int| 0 <= j < nl implies text[j] != '\n' by {
        if j < kp.len() {
            assert(text[j] == kp[j]);
        } else {
            assert(text[j] == v[j - kp.len()]);
        }
    }
    lemma_find_char_at(text, '\n', nl as int);
    let line = text.subrange(0, nl as int);
    assert(line =~= kp + v);
    assert(line.subrange(0, kp.len() as int) =~= kp);
    assert(has_prefix(line, kp));
    assert(line.skip(kp.len() as int) =~= v);
}

/// Law: a SUBSCRIBE frame round-trips through the header parser. For every
/// wire ID and feed identifier, the `id` header of the built frame reads
/// back as the ID's decimal representation, and the `receipt` header as
/// that representation followed by `-sub_receipt`.
#[verifier::rlimit(60)]
pub proof fn lemma_subscribe_frame_roundtrip(id: nat, feed: Seq<char>)
    ensures
        header_value_spec(crate::codec::subscribe_frame(id, feed), "id"@) == Some(dec_rep(id)),
        header_value_spec(crate::codec::subscribe_frame(id, feed), "receipt"@) == Some(
            dec_rep(id) + "-sub_receipt"@,
        ),
{
    reveal_strlit("SUBSCRIBE\nid:");
    reveal_strlit("SUBSCRIBE\n");
    reveal_strlit("id:");
    reveal_strlit("id");
    reveal_strlit(":");
    reveal_strlit("\nreceipt:");
    reveal_strlit("receipt:");
    reveal_strlit("receipt");
    reveal_strlit("-sub_receipt\ndestination:/topic/v1/us/stock/trade/");
    reveal_strlit("-sub_receipt");
    reveal_strlit("destination:/topic/v1/us/stock/trade/");
    reveal_strlit("\n\n\x00");
    let d = dec_rep(id);
    lemma_dec_rep_digits(id);
    assert forall|i: int| 0 <= i < d.len() implies d[i] != '\n' by {
        assert(is_decimal_digit(d[i]));
    }
    let text = crate::codec::subscribe_frame(id, feed);

    // the big literals, split at the line breaks
    assert("SUBSCRIBE\nid:"@ =~= "SUBSCRIBE\n"@ + "id:"@);
    assert("\nreceipt:"@ =~= seq!['\n'] + "receipt:"@);
    assert("-sub_receipt\ndestination:/topic/v1/us/stock/trade/"@ =~= "-sub_receipt"@
        + seq!['\n'] + "destination:/topic/v1/us/stock/trade/"@);

    let key_id = "id:"@;
    let key_receipt = "receipt:"@;
    let tail_b = "destination:/topic/v1/us/stock/trade/"@ + feed + "\n\n\x00"@;
    let tail_a = key_receipt + (d + "-sub_receipt"@) + seq!['\n'] + tail_b;
    let rest = key_id + d + seq!['\n'] + tail_a;
    assert(text =~= "SUBSCRIBE\n"@ + rest);

    // the command line ends at index 9
    assert forall|j: int| 0 <= j < 9 implies text[j] != '\n' by {
        assert(text[j] == "SUBSCRIBE\n"@[j]);
    }
    assert(text[9] == "SUBSCRIBE\n"@[9]);
    lemma_find_char_at(text, '\n', 9);
    assert(find_char(text, '\n') == 9);
    assert(text.subrange(10, text.len() as int) =~= rest);

    // the id header is the first header line
    assert forall|i: int| 0 <= i < key_id.len() implies key_id[i] != '\n' by {}
    lemma_find_header_hit(key_id, d, tail_a);
    assert(("id"@ + ":"@) =~= key_id);
    assert(header_value_spec(text, "id"@) == Some(d));

    // the receipt header is the second: the id line does not match its key
    let line_id = key_id + d;
    assert forall|i: int| 0 <= i < line_id.len() implies line_id[i] != '\n' by {
        if i < key_id.len() {
            assert(line_id[i] == key_id[i]);
        } else {
            assert(line_id[i] == d[i - key_id.len()]);
            assert(is_decimal_digit(d[i - key_id.len()]));
        }
    }
    assert(!has_prefix(line_id, key_receipt)) by {
        if has_prefix(line_id, key_receipt) {
            assert(line_id.subrange(0, key_receipt.len() as int)[0] == line_id[0]);
            assert(line_id[0] == 'i');
            assert(key_receipt[0] == 'r');
        }
    }
    assert(rest =~= line_id + seq!['\n'] + tail_a);
    lemma_find_header_miss(line_id, tail_a, key_receipt);
    assert forall|i: int| 0 <= i < key_receipt.len() implies key_receipt[i] != '\n' by {}
    let v_receipt = d + "-sub_receipt"@;
    assert forall|i: int| 0 <= i < v_receipt.len() implies v_receipt[i] != '\n' by {
        if i < d.len() {
            assert(v_receipt[i] == d[i]);
            assert(is_decimal_digit(d[i]));
        } else {
            assert(v_receipt[i] == "-sub_receipt"@[i - d.len()]);
        }
    }
    lemma_find_header_hit(key_receipt, v_receipt, tail_b);
    assert(("receipt"@ + ":"@) =~= key_receipt);
    assert(header_value_spec(text, "receipt"@) == Some(v_receipt));
}

/// A first line that does not start with `kp` is skipped.
proof fn lemma_find_header_miss(line: Seq<char>, tail: Seq<char>, kp: Seq<char>)
    requires
        forall|i: int| 0 <= i < line.len() ==> line[i] != '\n',
        !has_prefix(line, kp),
    ensures
        find_header(line + seq!['\n'] + tail, kp) == find_header(tail, kp),
{
    let text = line + seq!['\n'] + tail;
    let nl = line.len();
    assert(text[nl as int] == '\n');
    assert forall|j: int| 0 <= j < nl implies text[j] != '\n' by {
        assert(text[j] == line[j]);
    }
    lemma_find_char_at(text, '\n', nl as int);
    assert(text.subrange(0, nl as int) =~= line);
    assert(text.subrange(nl as int + 1, text.len() as int) =~= tail);
}

} // verus!
