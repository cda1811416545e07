//! Texts that the consumer shows: numbers written out in decimal, and the
//! one-line preview of a message.

use vstd::prelude::*;
use vstd::string::{StrSliceExecFns, StringExecFns, StringSliceAdditionalSpecFns};
use vstd::utf8::{
    decode_utf8, encode_utf8, encode_utf8_decode_utf8, encode_utf8_valid_utf8, is_char_boundary,
    is_char_boundary_start_end_of_seq,
};

verus! {

/// The character of one decimal digit.
pub open spec fn digit_char(d: nat) -> char {
    if d == 0 {
        '0'
    } else if d == 1 {
        '1'
    } else if d == 2 {
        '2'
    } else if d == 3 {
        '3'
    } else if d == 4 {
        '4'
    } else if d == 5 {
        '5'
    } else if d == 6 {
        '6'
    } else if d == 7 {
        '7'
    } else if d == 8 {
        '8'
    } else {
        '9'
    }
}

/// A number in decimal, without leading zeros.
pub open spec fn decimal(n: nat) -> Seq<char>
    decreases n,
{
    if n < 10 {
        seq![digit_char(n)]
    } else {
        decimal(n / 10).push(digit_char(n % 10))
    }
}

/// One decimal digit as a string.
pub fn digit_str(d: u16) -> (s: &'static str)
    requires
        d < 10,
    ensures
        s@ == seq![digit_char(d as nat)],
{
    proof {
        reveal_strlit("0");
        reveal_strlit("1");
        reveal_strlit("2");
        reveal_strlit("3");
        reveal_strlit("4");
        reveal_strlit("5");
        reveal_strlit("6");
        reveal_strlit("7");
        reveal_strlit("8");
        reveal_strlit("9");
    }
    let s = if d == 0 {
        "0"
    } else if d == 1 {
        "1"
    } else if d == 2 {
        "2"
    } else if d == 3 {
        "3"
    } else if d == 4 {
        "4"
    } else if d == 5 {
        "5"
    } else if d == 6 {
        "6"
    } else if d == 7 {
        "7"
    } else if d == 8 {
        "8"
    } else {
        "9"
    };
    assert(s@ =~= seq![digit_char(d as nat)]);
    s
}

/// `n` in decimal.
pub fn decimal_string(n: u16) -> (s: String)
    ensures
        s@ == decimal(n as nat),
{
    let mut rest: u16 = n;
    let mut s = String::from_str(digit_str(rest % 10));
    rest = rest / 10;
    proof {
        if n >= 10 {
            assert(decimal(n as nat) =~= decimal(rest as nat) + s@);
        }
    }
    while rest > 0
        invariant
            rest > 0 ==> decimal(n as nat) == decimal(rest as nat) + s@,
            rest == 0 ==> decimal(n as nat) == s@,
        decreases rest,
    {
        let ghost tail = s@;
        let ghost before = rest;
        s = String::from_str(digit_str(rest % 10)).concat(s.as_str());
        rest = rest / 10;
        proof {
            if before >= 10 {
                assert(decimal(before as nat) == decimal(rest as nat).push(
                    digit_char((before % 10) as nat),
                ));
                assert(decimal(n as nat) =~= decimal(rest as nat) + s@);
            } else {
                assert(decimal(n as nat) =~= s@);
            }
        }
    }
    s
}

/// How many bytes of a message its preview shows at most.
pub const PREVIEW_BYTES: usize = 50;

/// `String::push`: the string with `ch` added at its end.
pub assume_specification[ String::push ](s: &mut String, ch: char)
    ensures
        final(s)@ == old(s)@.push(ch),
;

/// A text on one line: every line feed becomes a space.
pub open spec fn one_line(text: Seq<char>) -> Seq<char> {
    Seq::new(
        text.len(),
        |i: int|
            if text[i] == '\n' {
                ' '
            } else {
                text[i]
            },
    )
}

/// The longest prefix of `bytes` of at most `limit` bytes that ends between
/// two characters.
pub open spec fn cut_at(bytes: Seq<u8>, limit: int) -> int
    decreases limit,
{
    if limit <= 0 {
        0
    } else if is_char_boundary(bytes, limit) {
        limit
    } else {
        cut_at(bytes, limit - 1)
    }
}

/// The preview of a message: the message on one line where it has at most 50
/// bytes; else its first 50 bytes on one line, less the bytes of a character
/// that does not fit whole, and three dots.
pub open spec fn preview_text(msg: Seq<char>) -> Seq<char> {
    let bytes = encode_utf8(msg);
    if bytes.len() > PREVIEW_BYTES {
        one_line(decode_utf8(bytes.take(cut_at(bytes, PREVIEW_BYTES as int)))) + "..."@
    } else {
        one_line(msg)
    }
}

/// `text` on one line.
pub fn one_line_string(text: &str) -> (line: String)
    ensures
        line@ == one_line(text@),
{
    let n = text.unicode_len();
    let mut line = String::new();
    let mut i: usize = 0;
    while i < n
        invariant
            n == text@.len(),
            i <= n,
            line@ == one_line(text@.take(i as int)),
        decreases n - i,
    {
        let c = text.get_char(i);
        if c == '\n' {
            line.push(' ');
        } else {
            line.push(c);
        }
        i = i + 1;
        assert(line@ =~= one_line(text@.take(i as int)));
    }
    assert(text@.take(i as int) =~= text@);
    line
}

/// The preview of `msg` for the list of the history.
pub fn preview(msg: &str) -> (shown: String)
    ensures
        shown@ == preview_text(msg@),
{
    if msg.as_bytes().len() > PREVIEW_BYTES {
        let ghost bytes = msg.spec_bytes();
        proof {
            encode_utf8_valid_utf8(msg@);
            is_char_boundary_start_end_of_seq(bytes);
        }
        let mut k: usize = PREVIEW_BYTES;
        while k > 0 && !msg.is_char_boundary(k)
            invariant
                k <= PREVIEW_BYTES,
                bytes == msg.spec_bytes(),
                cut_at(bytes, PREVIEW_BYTES as int) == cut_at(bytes, k as int),
            decreases k,
        {
            k = k - 1;
        }
        assert(cut_at(bytes, k as int) == k);
        let (head, _) = msg.split_at(k);
        proof {
            assert(head.spec_bytes() =~= bytes.take(k as int));
            encode_utf8_decode_utf8(head@);
            assert(head@ == decode_utf8(bytes.take(k as int)));
        }
        let mut shown = one_line_string(head);
        shown.append("...");
        shown
    } else {
        one_line_string(msg)
    }
}

} // verus!
