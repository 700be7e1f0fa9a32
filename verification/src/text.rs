//! Helpers on texts: white space, the segments of a filter text, and numbers
//! in decimal.

use vstd::prelude::*;
use vstd::string::*;
use vstd::utf8::is_ascii_chars;

verus! {

/// Whether `c` is white space in Unicode's sense (the characters that
/// trimming a string removes).
pub open spec fn is_blank(c: char) -> bool {
    ||| '\u{9}' <= c <= '\u{d}'
    ||| c == ' '
    ||| c == '\u{85}'
    ||| c == '\u{a0}'
    ||| c == '\u{1680}'
    ||| '\u{2000}' <= c <= '\u{200a}'
    ||| c == '\u{2028}'
    ||| c == '\u{2029}'
    ||| c == '\u{202f}'
    ||| c == '\u{205f}'
    ||| c == '\u{3000}'
}

/// Whether position `i` of `text` opens a comma-separated segment.
pub open spec fn opens_segment(text: Seq<char>, i: int) -> bool {
    i == 0 || text[i - 1] == ','
}

/// Whether no comma-separated segment of `text` begins with white space.
pub open spec fn segments_flush(text: Seq<char>) -> bool {
    forall|i: int| 0 <= i < text.len() && opens_segment(text, i) ==> !is_blank(#[trigger] text[i])
}

/// The texts that the directive grammar can be handed.
///
/// The grammar measures positions in a trimmed copy of each segment and cuts
/// the untrimmed one at them. That is sound where every character is one byte
/// long, and where trimming removes nothing at the front.
pub open spec fn parse_ready(text: Seq<char>) -> bool {
    is_ascii_chars(text) || segments_flush(text)
}

/// Decides `is_blank`.
pub fn blank(c: char) -> (res: bool)
    ensures
        res == is_blank(c),
{
    ('\u{9}' <= c && c <= '\u{d}') || c == ' ' || c == '\u{85}' || c == '\u{a0}' || c == '\u{1680}'
        || ('\u{2000}' <= c && c <= '\u{200a}') || c == '\u{2028}' || c == '\u{2029}' || c
        == '\u{202f}' || c == '\u{205f}' || c == '\u{3000}'
}

/// Decides `parse_ready`.
pub fn is_parse_ready(text: &str) -> (res: bool)
    ensures
        res == parse_ready(text@),
{
    if text.is_ascii() {
        return true;
    }
    let mut at_start = true;
    let mut flush = true;
    for c in it: text.chars()
        invariant
            it.seq() == text@,
            at_start == opens_segment(text@, it.index() as int),
            flush == forall|i: int|
                0 <= i < it.index() && opens_segment(text@, i) ==> !is_blank(#[trigger] text@[i]),
    {
        if at_start && blank(c) {
            flush = false;
        }
        at_start = c == ',';
    }
    flush
}

/// The character of a decimal digit.
pub open spec fn digit_char(digit: nat) -> char
    recommends
        digit < 10,
{
    if digit == 0 {
        '0'
    } else if digit == 1 {
        '1'
    } else if digit == 2 {
        '2'
    } else if digit == 3 {
        '3'
    } else if digit == 4 {
        '4'
    } else if digit == 5 {
        '5'
    } else if digit == 6 {
        '6'
    } else if digit == 7 {
        '7'
    } else if digit == 8 {
        '8'
    } else {
        '9'
    }
}

/// A number in decimal digits, without sign or leading zeros.
pub open spec fn decimal(n: nat) -> Seq<char>
    decreases n,
{
    if n < 10 {
        seq![digit_char(n)]
    } else {
        decimal(n / 10).push(digit_char(n % 10))
    }
}

/// The text of one decimal digit.
fn digit_text(digit: u16) -> (res: &'static str)
    requires
        digit < 10,
    ensures
        res@ == seq![digit_char(digit as nat)],
{
    proof {
        reveal_strlit("0");
        reveal_strlit("1");
        reveal_strlit("2");
        reveal_strlit("3");
        reveal_strlit("4");
        reveal_strlit("5");
        reveal_strlit("6");
        reveal_strlit("7");
        reveal_strlit("8");
        reveal_strlit("9");
    }
    let text = match digit {
        0 => "0",
        1 => "1",
        2 => "2",
        3 => "3",
        4 => "4",
        5 => "5",
        6 => "6",
        7 => "7",
        8 => "8",
        _ => "9",
    };
    assert(text@ =~= seq![digit_char(digit as nat)]);
    text
}

/// Writes a port number in decimal.
pub fn port_text(port: u16) -> (res: String)
    ensures
        res@ == decimal(port as nat),
    decreases port,
{
    if port < 10 {
        digit_text(port).to_owned()
    } else {
        let mut text = port_text(port / 10);
        text.append(digit_text(port % 10));
        text
    }
}

/// A decimal text is never empty.
pub proof fn lemma_decimal_is_not_empty(n: nat)
    ensures
        decimal(n).len() >= 1,
        n >= 10 ==> decimal(n).len() >= 2,
    decreases n,
{
    if n >= 10 {
        lemma_decimal_is_not_empty(n / 10);
    }
}

/// Different numbers have different decimal texts.
pub proof fn lemma_decimal_is_injective(a: nat, b: nat)
    requires
        decimal(a) == decimal(b),
    ensures
        a == b,
    decreases a,
{
    lemma_decimal_is_not_empty(a);
    lemma_decimal_is_not_empty(b);
    if a < 10 || b < 10 {
        assert(decimal(a).len() == 1 && decimal(b).len() == 1);
        assert(a < 10 && b < 10);
        assert(decimal(a)[0] == digit_char(a));
        assert(decimal(b)[0] == digit_char(b));
    } else {
        let high_a = decimal(a / 10);
        let high_b = decimal(b / 10);
        assert(high_a.push(digit_char(a % 10)).drop_last() =~= high_a);
        assert(high_b.push(digit_char(b % 10)).drop_last() =~= high_b);
        assert(high_a.push(digit_char(a % 10)).last() == digit_char(a % 10));
        assert(high_b.push(digit_char(b % 10)).last() == digit_char(b % 10));
        lemma_decimal_is_injective(a / 10, b / 10);
        assert(a % 10 == b % 10);
        assert(a == 10 * (a / 10) + a % 10);
        assert(b == 10 * (b / 10) + b % 10);
    }
}

/// Texts that differ still differ behind a common prefix and before a
/// common suffix.
pub proof fn lemma_frame_keeps_apart(
    prefix: Seq<char>,
    first: Seq<char>,
    second: Seq<char>,
    suffix: Seq<char>,
)
    requires
        first != second,
    ensures
        prefix + first + suffix != prefix + second + suffix,
{
    let a = prefix + first + suffix;
    let b = prefix + second + suffix;
    if a == b {
        assert(a.len() == b.len());
        assert(a.subrange(prefix.len() as int, (prefix.len() + first.len()) as int) =~= first);
        assert(b.subrange(prefix.len() as int, (prefix.len() + second.len()) as int) =~= second);
    }
}

} // verus!
