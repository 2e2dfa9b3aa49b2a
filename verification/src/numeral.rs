//! Hexadecimal numerals: the text of a frame header's length field.
//!
//! A numeral is one or more hexadecimal digits and nothing else. It is read
//! leniently in two respects only (white space around it is dropped, digits
//! of either case count) and written strictly (a fixed number of lower-case
//! digits).

use vstd::prelude::*;

verus! {

/// The characters that carry Unicode's `White_Space` property.
pub open spec fn is_whitespace(c: char) -> bool {
    let u = c as u32;
    ||| 0x09 <= u <= 0x0D
    ||| u == 0x20
    ||| u == 0x85
    ||| u == 0xA0
    ||| u == 0x1680
    ||| 0x2000 <= u <= 0x200A
    ||| u == 0x2028
    ||| u == 0x2029
    ||| u == 0x202F
    ||| u == 0x205F
    ||| u == 0x3000
}

/// The text without its leading white space.
pub open spec fn trim_start(s: Seq<char>) -> Seq<char>
    decreases s.len(),
{
    if s.len() > 0 && is_whitespace(s[0]) {
        trim_start(s.drop_first())
    } else {
        s
    }
}

/// The text without its trailing white space.
pub open spec fn trim_end(s: Seq<char>) -> Seq<char>
    decreases s.len(),
{
    if s.len() > 0 && is_whitespace(s.last()) {
        trim_end(s.drop_last())
    } else {
        s
    }
}

/// The text without the white space around it.
pub open spec fn trim(s: Seq<char>) -> Seq<char> {
    trim_end(trim_start(s))
}

/// The value of a hexadecimal digit of either case; `None` for any other
/// character.
pub open spec fn hex_digit_value(c: char) -> Option<nat> {
    let u = c as u32;
    if 0x30 <= u <= 0x39 {
        Some((u - 0x30) as nat)
    } else if 0x61 <= u <= 0x66 {
        Some((u - 0x61 + 10) as nat)
    } else if 0x41 <= u <= 0x46 {
        Some((u - 0x41 + 10) as nat)
    } else {
        None
    }
}

/// Every character is a hexadecimal digit.
pub open spec fn all_hex(s: Seq<char>) -> bool {
    forall|i: int| 0 <= i < s.len() ==> (#[trigger] hex_digit_value(s[i])) is Some
}

/// The number that a run of hexadecimal digits denotes, most significant
/// digit first. A character that is no digit counts as zero.
pub open spec fn digits_value(s: Seq<char>) -> nat
    decreases s.len(),
{
    if s.len() == 0 {
        0
    } else {
        16 * digits_value(s.drop_last()) + match hex_digit_value(s.last()) {
            Some(d) => d,
            None => 0,
        }
    }
}

/// The value of a hexadecimal numeral: one or more digits and nothing
/// else, so no sign, no prefix and no separator. `None` where the text is no
/// numeral.
pub open spec fn numeral_value(s: Seq<char>) -> Option<nat> {
    if s.len() > 0 && all_hex(s) {
        Some(digits_value(s))
    } else {
        None
    }
}

/// The number that a text denotes once the white space around it is
/// dropped, where that number fits the machine's word.
pub open spec fn parsed_hex(s: Seq<char>) -> Option<usize> {
    match numeral_value(trim(s)) {
        Some(v) => if v <= usize::MAX {
            Some(v as usize)
        } else {
            None
        },
        None => None,
    }
}

/// The lower-case ASCII digit for a value below sixteen.
pub open spec fn hex_digit_byte(d: nat) -> u8
    recommends
        d < 16,
{
    if d < 10 {
        (0x30 + d) as u8
    } else {
        (0x61 + d - 10) as u8
    }
}

/// The `width` least significant hexadecimal digits of `n` in lower case,
/// most significant first, padded with zeros.
pub open spec fn hex_fixed(n: nat, width: nat) -> Seq<u8>
    decreases width,
{
    if width == 0 {
        Seq::<u8>::empty()
    } else {
        hex_fixed(n / 16, (width - 1) as nat).push(hex_digit_byte(n % 16))
    }
}

/// Sixteen to the power `k`.
pub open spec fn pow16(k: nat) -> nat
    decreases k,
{
    if k == 0 {
        1
    } else {
        16 * pow16((k - 1) as nat)
    }
}

/// The characters that ASCII bytes stand for.
pub open spec fn ascii_text(bytes: Seq<u8>) -> Seq<char> {
    Seq::new(bytes.len(), |i: int| bytes[i] as char)
}

/// Tells whether a character is white space.
pub fn is_space(c: char) -> (b: bool)
    ensures
        b == is_whitespace(c),
{
    let u: u32 = c as u32;
    (0x09 <= u && u <= 0x0D) || u == 0x20 || u == 0x85 || u == 0xA0 || u == 0x1680 || (0x2000 <= u
        && u <= 0x200A) || u == 0x2028 || u == 0x2029 || u == 0x202F || u == 0x205F || u == 0x3000
}

/// The value of a hexadecimal digit, if the character is one.
pub fn digit_of(c: char) -> (d: Option<u8>)
    ensures
        match d {
            Some(v) => hex_digit_value(c) == Some(v as nat) && v < 16,
            None => hex_digit_value(c) is None,
        },
{
    let u: u32 = c as u32;
    if 0x30 <= u && u <= 0x39 {
        Some((u - 0x30) as u8)
    } else if 0x61 <= u && u <= 0x66 {
        Some((u - 0x61 + 10) as u8)
    } else if 0x41 <= u && u <= 0x46 {
        Some((u - 0x41 + 10) as u8)
    } else {
        None
    }
}

/// The characters of a text, in order.
pub fn chars_of(text: &str) -> (chars: Vec<char>)
    ensures
        chars@ == text@,
{
    let mut chars: Vec<char> = Vec::new();
    for c in it: text.chars()
        invariant
            it.seq() == text@,
            chars@ == it.seq().take(it.index()),
    {
        chars.push(c);
    }
    chars
}

/// Reads a hexadecimal numeral: white space around it is dropped, and what
/// is left must be one or more digits of either case. `None` where the text
/// is no such numeral, a sign included, or denotes a number beyond the
/// machine's word.
pub fn parse_hex(text: &str) -> (value: Option<usize>)
    ensures
        value == parsed_hex(text@),
{
    let chars: Vec<char> = chars_of(text);
    let len: usize = chars.len();
    let mut lo: usize = 0;
    assert(chars@.subrange(0, len as int) =~= chars@);
    while lo < len && is_space(chars[lo])
        invariant
            lo <= len == chars.len(),
            trim_start(chars@) == trim_start(chars@.subrange(lo as int, len as int)),
        decreases len - lo,
    {
        assert(chars@.subrange(lo as int, len as int).drop_first() =~= chars@.subrange(
            lo + 1,
            len as int,
        ));
        lo += 1;
    }
    let mut hi: usize = len;
    while hi > lo && is_space(chars[hi - 1])
        invariant
            lo <= hi <= len == chars.len(),
            trim_end(chars@.subrange(lo as int, len as int)) == trim_end(
                chars@.subrange(lo as int, hi as int),
            ),
        decreases hi,
    {
        assert(chars@.subrange(lo as int, hi as int).drop_last() =~= chars@.subrange(
            lo as int,
            hi - 1,
        ));
        hi -= 1;
    }
    let ghost digits = chars@.subrange(lo as int, hi as int);
    if lo == hi {
        return None;
    }
    let mut acc: usize = 0;
    let mut i: usize = lo;
    while i < hi
        invariant
            lo <= i <= hi <= chars.len(),
            digits == chars@.subrange(lo as int, hi as int),
            trim(text@) == digits,
            all_hex(digits.subrange(0, i - lo)),
            acc == digits_value(digits.subrange(0, i - lo)),
        decreases hi - i,
    {
        let ghost seen = digits.subrange(0, i - lo);
        let ghost next = digits.subrange(0, i + 1 - lo);
        assert(next.drop_last() =~= seen);
        proof {
            lemma_digits_value_grows(digits, i + 1 - lo);
        }
        let digit: u8 = match digit_of(chars[i]) {
            Some(d) => d,
            None => {
                return None;
            },
        };
        let shifted: usize = match acc.checked_mul(16) {
            Some(m) => m,
            None => {
                return None;
            },
        };
        acc = match shifted.checked_add(digit as usize) {
            Some(v) => v,
            None => {
                return None;
            },
        };
        assert forall|j: int| 0 <= j < next.len() implies (#[trigger] hex_digit_value(
            next[j],
        )) is Some by {
            if j < seen.len() {
                assert(next[j] == seen[j]);
            }
        }
        i += 1;
    }
    assert(digits.subrange(0, i - lo) =~= digits);
    Some(acc)
}

/// The lower-case ASCII digit for a value below sixteen.
fn hex_digit(d: u8) -> (b: u8)
    requires
        d < 16,
    ensures
        b == hex_digit_byte(d as nat),
{
    if d < 10 {
        0x30 + d
    } else {
        0x61 + (d - 10)
    }
}

/// Appends the `width` least significant hexadecimal digits of `n`, most
/// significant first.
pub fn push_hex(out: &mut Vec<u8>, n: u32, width: u8)
    ensures
        final(out)@ == old(out)@ + hex_fixed(n as nat, width as nat),
    decreases width,
{
    if width > 0 {
        push_hex(out, n / 16, width - 1);
        out.push(hex_digit((n % 16) as u8));
    }
}

/// A run of digits denotes at least what any of its prefixes denotes.
pub proof fn lemma_digits_value_grows(s: Seq<char>, k: int)
    requires
        0 <= k <= s.len(),
    ensures
        digits_value(s.subrange(0, k)) <= digits_value(s),
    decreases s.len(),
{
    if k == s.len() {
        assert(s.subrange(0, k) =~= s);
    } else {
        lemma_digits_value_grows(s.drop_last(), k);
        assert(s.drop_last().subrange(0, k) =~= s.subrange(0, k));
    }
}

/// A run of `k` digits denotes a number below sixteen to the `k`.
pub proof fn lemma_digits_value_bound(s: Seq<char>)
    ensures
        digits_value(s) < pow16(s.len()),
    decreases s.len(),
{
    if s.len() > 0 {
        lemma_digits_value_bound(s.drop_last());
    }
}

/// White space before a text that starts with none is all that trimming the
/// start takes away.
proof fn lemma_trim_start_padded(lead: Seq<char>, rest: Seq<char>)
    requires
        forall|i: int| 0 <= i < lead.len() ==> is_whitespace(#[trigger] lead[i]),
        rest.len() > 0,
        !is_whitespace(rest[0]),
    ensures
        trim_start(lead + rest) == rest,
    decreases lead.len(),
{
    if lead.len() == 0 {
        assert(lead + rest =~= rest);
    } else {
        assert((lead + rest).drop_first() =~= lead.drop_first() + rest);
        assert forall|i: int| 0 <= i < lead.drop_first().len() implies is_whitespace(
            #[trigger] lead.drop_first()[i],
        ) by {
            assert(lead.drop_first()[i] == lead[i + 1]);
        }
        lemma_trim_start_padded(lead.drop_first(), rest);
    }
}

/// White space after a text that ends with none is all that trimming the
/// end takes away.
proof fn lemma_trim_end_padded(rest: Seq<char>, tail: Seq<char>)
    requires
        forall|i: int| 0 <= i < tail.len() ==> is_whitespace(#[trigger] tail[i]),
        rest.len() > 0,
        !is_whitespace(rest.last()),
    ensures
        trim_end(rest + tail) == rest,
    decreases tail.len(),
{
    if tail.len() == 0 {
        assert(rest + tail =~= rest);
    } else {
        assert((rest + tail).drop_last() =~= rest + tail.drop_last());
        assert forall|i: int| 0 <= i < tail.drop_last().len() implies is_whitespace(
            #[trigger] tail.drop_last()[i],
        ) by {
            assert(tail.drop_last()[i] == tail[i]);
        }
        lemma_trim_end_padded(rest, tail.drop_last());
    }
}

/// Trimming never makes a text longer.
pub proof fn lemma_trim_shortens(s: Seq<char>)
    ensures
        trim_start(s).len() <= s.len(),
        trim_end(s).len() <= s.len(),
        trim(s).len() <= s.len(),
    decreases s.len(),
{
    if s.len() > 0 {
        lemma_trim_shortens(s.drop_first());
        lemma_trim_shortens(s.drop_last());
    }
    lemma_trim_end_shortens(trim_start(s));
}

/// Trimming the end never makes a text longer.
proof fn lemma_trim_end_shortens(s: Seq<char>)
    ensures
        trim_end(s).len() <= s.len(),
    decreases s.len(),
{
    if s.len() > 0 {
        lemma_trim_end_shortens(s.drop_last());
    }
}

/// Trimming a text that neither starts nor ends with white space, with
/// white space put around it, gives that text back.
pub proof fn lemma_trim_padded(lead: Seq<char>, core: Seq<char>, tail: Seq<char>)
    requires
        forall|i: int| 0 <= i < lead.len() ==> is_whitespace(#[trigger] lead[i]),
        forall|i: int| 0 <= i < tail.len() ==> is_whitespace(#[trigger] tail[i]),
        core.len() > 0,
        !is_whitespace(core[0]),
        !is_whitespace(core.last()),
    ensures
        trim(lead + core + tail) == core,
{
    lemma_trim_start_padded(lead, core + tail);
    assert(lead + core + tail =~= lead + (core + tail));
    lemma_trim_end_padded(core, tail);
}

/// The fixed-width digits of a number are as many as the width, all of them
/// hexadecimal digits in ASCII, and denote the number where the width holds
/// it.
proof fn lemma_hex_fixed_digits(n: nat, width: nat)
    ensures
        hex_fixed(n, width).len() == width,
        all_hex(ascii_text(hex_fixed(n, width))),
        vstd::utf8::is_ascii_chars(ascii_text(hex_fixed(n, width))),
        n < pow16(width) ==> digits_value(ascii_text(hex_fixed(n, width))) == n,
    decreases width,
{
    if width > 0 {
        let shorter = hex_fixed(n / 16, (width - 1) as nat);
        let bytes = hex_fixed(n, width);
        lemma_hex_fixed_digits(n / 16, (width - 1) as nat);
        assert(ascii_text(bytes).drop_last() =~= ascii_text(shorter));
        assert forall|i: int| 0 <= i < bytes.len() implies (#[trigger] hex_digit_value(
            ascii_text(bytes)[i],
        )) is Some by {
            if i < shorter.len() {
                assert(ascii_text(bytes)[i] == ascii_text(shorter)[i]);
            }
        }
        assert forall|i: int| 0 <= i < bytes.len() implies '\0' <= #[trigger] ascii_text(
            bytes,
        )[i] <= '\u{7f}' by {
            if i < shorter.len() {
                assert(ascii_text(bytes)[i] == ascii_text(shorter)[i]);
            }
        }
    }
}

/// The fixed-width digits of a number are ASCII text that reads back as
/// that number, provided the width holds it.
pub proof fn lemma_hex_fixed_reads_back(n: nat, width: nat)
    requires
        width > 0,
        n < pow16(width),
    ensures
        hex_fixed(n, width).len() == width,
        vstd::utf8::is_ascii_chars(ascii_text(hex_fixed(n, width))),
        vstd::utf8::encode_utf8(ascii_text(hex_fixed(n, width))) == hex_fixed(n, width),
        numeral_value(trim(ascii_text(hex_fixed(n, width)))) == Some(n),
{
    let bytes = hex_fixed(n, width);
    let text = ascii_text(bytes);
    lemma_hex_fixed_digits(n, width);
    assert(hex_digit_value(text[0]) is Some);
    assert(hex_digit_value(text.last()) is Some);
    assert(trim(text) == text);
    vstd::utf8::is_ascii_chars_encode_utf8(text);
    assert(vstd::utf8::encode_utf8(text) =~= bytes);
}

} // verus!
