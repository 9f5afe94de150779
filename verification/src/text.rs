//! Text: the string operations of std that the library uses, what they mean
//! over sequences of characters, and the digits of numbers.

use vstd::prelude::*;
use vstd::string::*;
use vstd::utf8::*;

verus! {

/// The characters with the Unicode property White_Space.
pub open spec fn is_whitespace(c: char) -> bool {
    ||| '\u{0009}' <= c <= '\u{000D}'
    ||| c == '\u{0020}'
    ||| c == '\u{0085}'
    ||| c == '\u{00A0}'
    ||| c == '\u{1680}'
    ||| '\u{2000}' <= c <= '\u{200A}'
    ||| c == '\u{2028}'
    ||| c == '\u{2029}'
    ||| c == '\u{202F}'
    ||| c == '\u{205F}'
    ||| c == '\u{3000}'
}

/// `s` without its leading whitespace.
pub open spec fn trim_start(s: Seq<char>) -> Seq<char>
    decreases s.len(),
{
    if s.len() > 0 && is_whitespace(s[0]) {
        trim_start(s.drop_first())
    } else {
        s
    }
}

/// `s` without its trailing whitespace.
pub open spec fn trim_end(s: Seq<char>) -> Seq<char>
    decreases s.len(),
{
    if s.len() > 0 && is_whitespace(s.last()) {
        trim_end(s.drop_last())
    } else {
        s
    }
}

/// `s` without the whitespace around it.
pub open spec fn trim(s: Seq<char>) -> Seq<char> {
    trim_end(trim_start(s))
}

/// `c`, in lower case where it is an ASCII letter.
pub open spec fn lower_char(c: char) -> char {
    if 'A' <= c <= 'Z' {
        (c as u32 + 32) as char
    } else {
        c
    }
}

/// `s` with every ASCII letter in lower case.
pub open spec fn lower(s: Seq<char>) -> Seq<char> {
    s.map_values(|c: char| lower_char(c))
}

/// Whether `part` stands in `s` from position `at` on.
pub open spec fn occurs_at(s: Seq<char>, part: Seq<char>, at: int) -> bool {
    0 <= at <= s.len() - part.len() && s.subrange(at, at + part.len()) == part
}

/// Whether `part` stands somewhere in `s`.
pub open spec fn has_part(s: Seq<char>, part: Seq<char>) -> bool {
    exists|at: int| occurs_at(s, part, at)
}

/// What stands before and after the first `separator` in `s`, if there is one.
pub open spec fn cut(s: Seq<char>, separator: char) -> Option<(Seq<char>, Seq<char>)>
    decreases s.len(),
{
    if s.len() == 0 {
        None
    } else if s[0] == separator {
        Some((Seq::empty(), s.drop_first()))
    } else {
        match cut(s.drop_first(), separator) {
            Some((before, after)) => Some((seq![s[0]] + before, after)),
            None => None,
        }
    }
}

/// The characters of an optional string slice.
pub open spec fn str_chars(s: Option<&str>) -> Option<Seq<char>> {
    match s {
        Some(t) => Some(t@),
        None => None,
    }
}

/// The characters of an optional string.
pub open spec fn string_chars(s: Option<String>) -> Option<Seq<char>> {
    match s {
        Some(t) => Some(t@),
        None => None,
    }
}

/// A string that may be missing, borrowed.
pub(crate) fn as_text(s: &Option<String>) -> (borrowed: Option<&str>)
    ensures
        str_chars(borrowed) == string_chars(*s),
{
    match s {
        Some(t) => Some(t.as_str()),
        None => None,
    }
}

/// `str::trim` drops leading and trailing whitespace, which std defines as the
/// characters with the Unicode property White_Space.
pub assume_specification[ str::trim ](s: &str) -> (trimmed: &str)
    ensures
        trimmed@ == trim(s@),
;

/// `str::trim_start` drops leading whitespace, in the same sense as `str::trim`.
pub assume_specification[ str::trim_start ](s: &str) -> (trimmed: &str)
    ensures
        trimmed@ == trim_start(s@),
;

/// `str::to_ascii_lowercase` maps the ASCII letters A to Z to a to z and keeps
/// every other character.
pub assume_specification[ str::to_ascii_lowercase ](s: &str) -> (lowered: String)
    ensures
        lowered@ == lower(s@),
;

/// `str::eq_ignore_ascii_case` compares what `to_ascii_lowercase` makes of both.
pub assume_specification[ str::eq_ignore_ascii_case ](s: &str, other: &str) -> (equal: bool)
    ensures
        equal == (lower(s@) == lower(other@)),
;

/// `str::contains`, with a string as its pattern: whether the pattern is a
/// substring.
#[verifier::external_body]
pub(crate) fn contains(s: &str, part: &str) -> (found: bool)
    ensures
        found == has_part(s@, part@),
{
    s.contains(part)
}

/// `str::starts_with`, with a string as its pattern: whether the pattern is a
/// prefix.
#[verifier::external_body]
pub(crate) fn starts_with(s: &str, prefix: &str) -> (found: bool)
    ensures
        found == prefix@.is_prefix_of(s@),
{
    s.starts_with(prefix)
}

/// `str::split_once`, with a character as its pattern: what stands before and
/// after its first occurrence.
#[verifier::external_body]
pub(crate) fn split_once(s: &str, separator: char) -> (parts: Option<(&str, &str)>)
    ensures
        match parts {
            Some((before, after)) => cut(s@, separator) == Some((before@, after@)),
            None => cut(s@, separator) is None,
        },
{
    s.split_once(separator)
}

/// `str == str`: whether both hold the same characters.
#[verifier::external_body]
pub(crate) fn same(s: &str, other: &str) -> (equal: bool)
    ensures
        equal == (s@ == other@),
{
    s == other
}

/// `std::str::from_utf8`, of which only the verdict is taken: whether the bytes
/// are valid UTF-8.
#[verifier::external_body]
pub(crate) fn is_utf8(bytes: &[u8]) -> (valid: bool)
    ensures
        valid == valid_utf8(bytes@),
{
    std::str::from_utf8(bytes).is_ok()
}

/// The text that `String::from_utf8_lossy` makes of bytes.
pub uninterp spec fn lossy_text(bytes: Seq<u8>) -> Seq<char>;

/// `String::from_utf8_lossy`. Valid UTF-8 is decoded as it is; elsewhere invalid
/// sequences become U+FFFD, and how many of them is not stated here.
#[verifier::external_body]
pub(crate) fn decode_lossy(bytes: &[u8]) -> (text: String)
    ensures
        text@ == lossy_text(bytes@),
        valid_utf8(bytes@) ==> text@ == decode_utf8(bytes@),
{
    String::from_utf8_lossy(bytes).into_owned()
}

/// The character for a digit below sixteen.
pub open spec fn digit(d: nat) -> char {
    if d < 10 {
        ('0' as u32 + d) as char
    } else {
        ('a' as u32 + d - 10) as char
    }
}

/// The digits of `n` in base `base`, which is two at least.
pub open spec fn digits(n: nat, base: nat) -> Seq<char>
    decreases n,
{
    if base < 2 || n < base {
        seq![digit(n)]
    } else {
        proof {
            assert(n / base < n) by (nonlinear_arith)
                requires
                    base >= 2,
                    n >= base,
            ;
        }
        digits(n / base, base).push(digit(n % base))
    }
}

/// `n` in decimal.
pub open spec fn decimal(n: nat) -> Seq<char> {
    digits(n, 10)
}

/// `n` in decimal, with a minus sign where it is negative.
pub open spec fn signed_decimal(n: int) -> Seq<char> {
    if n < 0 {
        "-"@ + decimal((-n) as nat)
    } else {
        decimal(n as nat)
    }
}

/// `n` in lower-case hexadecimal.
pub open spec fn hexadecimal(n: nat) -> Seq<char> {
    digits(n, 16)
}

fn digit_text(d: u128) -> (text: &'static str)
    requires
        d < 16,
    ensures
        text@ == seq![digit(d as nat)],
{
    proof {
        reveal_strlit("0");
        reveal_strlit("1");
        reveal_strlit("2");
        reveal_strlit("3");
        reveal_strlit("4");
        reveal_strlit("5");
        reveal_strlit("6");
        reveal_strlit("7");
        reveal_strlit("8");
        reveal_strlit("9");
        reveal_strlit("a");
        reveal_strlit("b");
        reveal_strlit("c");
        reveal_strlit("d");
        reveal_strlit("e");
        reveal_strlit("f");
    }
    match d {
        0 => "0",
        1 => "1",
        2 => "2",
        3 => "3",
        4 => "4",
        5 => "5",
        6 => "6",
        7 => "7",
        8 => "8",
        9 => "9",
        10 => "a",
        11 => "b",
        12 => "c",
        13 => "d",
        14 => "e",
        _ => "f",
    }
}

fn digits_text(n: u128, base: u128) -> (text: String)
    requires
        2 <= base <= 16,
    ensures
        text@ == digits(n as nat, base as nat),
    decreases n,
{
    if n < base {
        digit_text(n).to_owned()
    } else {
        assert(n / base < n) by (nonlinear_arith)
            requires
                base >= 2,
                n >= base,
        ;
        let mut text = digits_text(n / base, base);
        text.append(digit_text(n % base));
        text
    }
}

/// `n` in decimal.
pub fn decimal_text(n: u64) -> (text: String)
    ensures
        text@ == decimal(n as nat),
{
    digits_text(n as u128, 10)
}

/// `n` in decimal, with a minus sign where it is negative.
pub fn signed_decimal_text(n: i64) -> (text: String)
    ensures
        text@ == signed_decimal(n as int),
{
    if n < 0 {
        let mut text = "-".to_owned();
        let magnitude: u128 = (-(n as i128)) as u128;
        text.append(digits_text(magnitude, 10).as_str());
        text
    } else {
        digits_text(n as u128, 10)
    }
}

/// `n` in lower-case hexadecimal.
pub fn hexadecimal_text(n: u128) -> (text: String)
    ensures
        text@ == hexadecimal(n as nat),
{
    digits_text(n, 16)
}

/// Whether every character of `s` is whitespace.
pub open spec fn is_blank(s: Seq<char>) -> bool {
    forall|i: int| 0 <= i < s.len() ==> is_whitespace(#[trigger] s[i])
}

/// Whether no whitespace stands at the ends of `s`.
pub open spec fn is_trimmed(s: Seq<char>) -> bool {
    s.len() > 0 ==> !is_whitespace(s[0]) && !is_whitespace(s.last())
}

/// Whitespace in front of a text is dropped with the text's own.
proof fn lemma_trim_start_of_blank(blank: Seq<char>, s: Seq<char>)
    requires
        is_blank(blank),
    ensures
        trim_start(blank + s) == trim_start(s),
    decreases blank.len(),
{
    if blank.len() == 0 {
        assert(blank + s =~= s);
    } else {
        assert(is_whitespace(blank[0]));
        let rest = blank.drop_first();
        assert forall|i: int| 0 <= i < rest.len() implies is_whitespace(#[trigger] rest[i]) by {
            assert(rest[i] == blank[i + 1]);
        }
        lemma_trim_start_of_blank(rest, s);
        assert((blank + s).drop_first() =~= rest + s);
    }
}

/// Whitespace behind a text is dropped with the text's own.
proof fn lemma_trim_end_of_blank(s: Seq<char>, blank: Seq<char>)
    requires
        is_blank(blank),
    ensures
        trim_end(s + blank) == trim_end(s),
    decreases blank.len(),
{
    if blank.len() == 0 {
        assert(s + blank =~= s);
    } else {
        assert(is_whitespace(blank[blank.len() - 1]));
        let rest = blank.drop_last();
        assert forall|i: int| 0 <= i < rest.len() implies is_whitespace(#[trigger] rest[i]) by {
            assert(rest[i] == blank[i]);
        }
        lemma_trim_end_of_blank(s, rest);
        assert((s + blank).drop_last() =~= s + rest);
    }
}

/// A text with whitespace around it is trimmed to what stands between, where that
/// neither begins nor ends with whitespace.
pub proof fn lemma_trim_padded(before: Seq<char>, s: Seq<char>, after: Seq<char>)
    requires
        is_blank(before),
        is_blank(after),
        s.len() > 0,
        is_trimmed(s),
    ensures
        trim(before + s + after) == s,
{
    assert(before + s + after =~= before + (s + after));
    lemma_trim_start_of_blank(before, s + after);
    assert((s + after)[0] == s[0]);
    assert(trim_start(s + after) == s + after);
    lemma_trim_end_of_blank(s, after);
}

/// Of a text with whitespace in front of it the text is left where it does not begin
/// with whitespace itself.
pub proof fn lemma_trim_start_padded(before: Seq<char>, s: Seq<char>)
    requires
        is_blank(before),
        s.len() > 0 ==> !is_whitespace(s[0]),
    ensures
        trim_start(before + s) == s,
{
    lemma_trim_start_of_blank(before, s);
}

proof fn lemma_trim_start_ends(s: Seq<char>)
    ensures
        trim_start(s).len() > 0 ==> !is_whitespace(trim_start(s)[0]),
    decreases s.len(),
{
    if s.len() > 0 && is_whitespace(s[0]) {
        lemma_trim_start_ends(s.drop_first());
    }
}

proof fn lemma_trim_end_ends(s: Seq<char>)
    ensures
        trim_end(s).len() > 0 ==> !is_whitespace(trim_end(s).last()) && trim_end(s)[0] == s[0],
        trim_end(s).len() <= s.len(),
    decreases s.len(),
{
    if s.len() > 0 && is_whitespace(s.last()) {
        lemma_trim_end_ends(s.drop_last());
    }
}

/// What is left of a text once it was trimmed neither begins nor ends with
/// whitespace.
pub proof fn lemma_trim_is_trimmed(s: Seq<char>)
    ensures
        is_trimmed(trim(s)),
{
    lemma_trim_start_ends(s);
    lemma_trim_end_ends(trim_start(s));
}

/// What stands before the first separator is what the text is cut to.
pub proof fn lemma_cut_at(before: Seq<char>, separator: char, after: Seq<char>)
    requires
        !before.contains(separator),
    ensures
        cut(before + seq![separator] + after, separator) == Some((before, after)),
    decreases before.len(),
{
    let whole = before + seq![separator] + after;
    if before.len() == 0 {
        assert(whole.drop_first() =~= after);
        assert(before =~= Seq::<char>::empty());
    } else {
        assert(before[0] != separator);
        let rest = before.drop_first();
        assert forall|i: int| 0 <= i < rest.len() implies rest[i] != separator by {
            assert(rest[i] == before[i + 1]);
        }
        lemma_cut_at(rest, separator, after);
        assert(whole.drop_first() =~= rest + seq![separator] + after);
        assert(seq![before[0]] + rest =~= before);
    }
}

/// A text is cut only where the separator stands in it.
pub proof fn lemma_cut_none(s: Seq<char>, separator: char)
    requires
        !s.contains(separator),
    ensures
        cut(s, separator) is None,
    decreases s.len(),
{
    if s.len() > 0 {
        assert(s[0] != separator);
        let rest = s.drop_first();
        assert forall|i: int| 0 <= i < rest.len() implies rest[i] != separator by {
            assert(rest[i] == s[i + 1]);
        }
        lemma_cut_none(rest, separator);
    }
}

/// A text is what trimming leaves of it between the whitespace that it drops.
pub proof fn lemma_trim_splits(s: Seq<char>) -> (around: (Seq<char>, Seq<char>))
    ensures
        is_blank(around.0),
        is_blank(around.1),
        s == around.0 + trim(s) + around.1,
{
    let before = lemma_trim_start_splits(s);
    let after = lemma_trim_end_splits(trim_start(s));
    assert(s =~= before + trim(s) + after);
    (before, after)
}

/// A text is the whitespace that `trim_start` drops of it, and what that leaves.
pub proof fn lemma_trim_start_splits(s: Seq<char>) -> (before: Seq<char>)
    ensures
        is_blank(before),
        s == before + trim_start(s),
    decreases s.len(),
{
    if s.len() > 0 && is_whitespace(s[0]) {
        let rest = lemma_trim_start_splits(s.drop_first());
        let before = seq![s[0]] + rest;
        assert forall|i: int| 0 <= i < before.len() implies is_whitespace(#[trigger] before[i]) by {
            if i > 0 {
                assert(before[i] == rest[i - 1]);
            }
        }
        assert(s =~= seq![s[0]] + s.drop_first());
        assert(s =~= before + trim_start(s));
        before
    } else {
        assert(s =~= Seq::<char>::empty() + s);
        Seq::empty()
    }
}

proof fn lemma_trim_end_splits(s: Seq<char>) -> (after: Seq<char>)
    ensures
        is_blank(after),
        s == trim_end(s) + after,
    decreases s.len(),
{
    if s.len() > 0 && is_whitespace(s.last()) {
        let rest = lemma_trim_end_splits(s.drop_last());
        let after = rest.push(s.last());
        assert forall|i: int| 0 <= i < after.len() implies is_whitespace(#[trigger] after[i]) by {
            if i < rest.len() {
                assert(after[i] == rest[i]);
            }
        }
        assert(s =~= s.drop_last().push(s.last()));
        assert(s =~= trim_end(s) + after);
        after
    } else {
        assert(s =~= s + Seq::<char>::empty());
        Seq::empty()
    }
}

/// Nothing is left of a text of whitespace once it was trimmed.
pub proof fn lemma_trim_blank(s: Seq<char>)
    requires
        is_blank(s),
    ensures
        trim(s) == Seq::<char>::empty(),
{
    lemma_trim_start_of_blank(s, Seq::empty());
    assert(s + Seq::<char>::empty() =~= s);
    assert(trim_start(s) =~= Seq::empty());
}

/// A text that is cut consists of the two parts around the first separator; one
/// that is not has no separator in it.
pub proof fn lemma_cut_splits(s: Seq<char>, separator: char)
    ensures
        match cut(s, separator) {
            Some((before, after)) => s == before + seq![separator] + after && !before.contains(
                separator,
            ),
            None => !s.contains(separator),
        },
    decreases s.len(),
{
    if s.len() > 0 {
        let rest = s.drop_first();
        assert(s =~= seq![s[0]] + rest);
        if s[0] == separator {
            assert(s =~= Seq::<char>::empty() + seq![separator] + rest);
        } else {
            lemma_cut_splits(rest, separator);
            match cut(rest, separator) {
                Some((before, after)) => {
                    let longer = seq![s[0]] + before;
                    assert(s =~= longer + seq![separator] + after);
                    assert forall|i: int| 0 <= i < longer.len() implies longer[i] != separator by {
                        if i > 0 {
                            assert(longer[i] == before[i - 1]);
                        }
                    }
                },
                None => {
                    assert forall|i: int| 0 <= i < s.len() implies s[i] != separator by {
                        if i > 0 {
                            assert(s[i] == rest[i - 1]);
                        }
                    }
                },
            }
        }
    }
}

/// The number that a digit stands for.
pub open spec fn digit_value(c: char) -> int {
    if '0' <= c <= '9' {
        c as u32 - 48
    } else {
        c as u32 - 87
    }
}

/// The number that digits stand for, by their places.
pub open spec fn number_of(digits: Seq<char>, base: int) -> int
    decreases digits.len(),
{
    if digits.len() == 0 {
        0
    } else {
        number_of(digits.drop_last(), base) * base + digit_value(digits.last())
    }
}

proof fn lemma_digit(d: nat)
    requires
        d < 16,
    ensures
        digit_value(digit(d)) == d,
        '0' <= digit(d) <= '9' <==> d < 10,
        'a' <= digit(d) <= 'f' <==> d >= 10,
        digit(d) == '0' <==> d == 0,
{
    assert(d == 0 || d == 1 || d == 2 || d == 3 || d == 4 || d == 5 || d == 6 || d == 7 || d == 8
        || d == 9 || d == 10 || d == 11 || d == 12 || d == 13 || d == 14 || d == 15);
}

proof fn lemma_digits(n: nat, base: nat)
    requires
        2 <= base <= 16,
    ensures
        number_of(digits(n, base), base as int) == n,
        digits(n, base).len() > 0,
        digits(n, base)[0] == '0' ==> n == 0 && digits(n, base).len() == 1,
        forall|i: int|
            0 <= i < digits(n, base).len() ==> '0' <= #[trigger] digits(n, base)[i] <= '9' || (base
                > 10 && 'a' <= digits(n, base)[i] <= 'f'),
    decreases n,
{
    let all = digits(n, base);
    if n < base {
        lemma_digit(n);
        assert(all.drop_last().len() == 0);
        assert(number_of(all.drop_last(), base as int) == 0);
        assert(0 * base == 0) by (nonlinear_arith);
        assert(number_of(all, base as int) == digit_value(digit(n)));
    } else {
        assert(n / base < n && n / base > 0 && n % base < base && n == (n / base) * base + n % base)
            by (nonlinear_arith)
            requires
                base >= 2,
                n >= base,
        ;
        lemma_digits(n / base, base);
        lemma_digit(n % base);
        assert(all.drop_last() =~= digits(n / base, base));
        assert forall|i: int| 0 <= i < all.len() implies '0' <= #[trigger] all[i] <= '9' || (base
            > 10 && 'a' <= all[i] <= 'f') by {
            if i < all.len() - 1 {
                assert(all[i] == digits(n / base, base)[i]);
            }
        }
    }
}

/// A number in decimal reads as that number: decimal digits only, and no zero in
/// front of others.
pub proof fn law_decimal_reads_as_the_number(n: nat)
    ensures
        number_of(decimal(n), 10) == n,
        decimal(n).len() > 0,
        decimal(n)[0] == '0' ==> n == 0 && decimal(n).len() == 1,
        forall|i: int| 0 <= i < decimal(n).len() ==> '0' <= #[trigger] decimal(n)[i] <= '9',
{
    lemma_digits(n, 10);
}

/// A number in hexadecimal reads as that number: digits and letters from a to f
/// only, and no zero in front of others.
pub proof fn law_hexadecimal_reads_as_the_number(n: nat)
    ensures
        number_of(hexadecimal(n), 16) == n,
        hexadecimal(n).len() > 0,
        hexadecimal(n)[0] == '0' ==> n == 0 && hexadecimal(n).len() == 1,
        forall|i: int|
            0 <= i < hexadecimal(n).len() ==> '0' <= #[trigger] hexadecimal(n)[i] <= '9' || 'a'
                <= hexadecimal(n)[i] <= 'f',
{
    lemma_digits(n, 16);
}

/// A signed number is its magnitude in decimal, behind a minus sign exactly where
/// it is negative.
pub proof fn law_signed_decimal_reads_as_the_number(n: int)
    ensures
        n >= 0 ==> number_of(signed_decimal(n), 10) == n && signed_decimal(n) == decimal(n as nat),
        n < 0 ==> signed_decimal(n)[0] == '-' && signed_decimal(n).skip(1) == decimal((-n) as nat)
            && number_of(signed_decimal(n).skip(1), 10) == -n,
{
    reveal_strlit("-");
    if n < 0 {
        lemma_digits((-n) as nat, 10);
        assert(signed_decimal(n).skip(1) =~= decimal((-n) as nat));
    } else {
        lemma_digits(n as nat, 10);
    }
}

} // verus!
