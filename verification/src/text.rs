//! Text primitives: decimal numerals, ASCII case folding, trimming and suffixes.

use vstd::prelude::*;

verus! {

/// The character that writes the digit `d`.
pub open spec fn digit_char(d: nat) -> char {
    "0123456789"@[d as int]
}

/// The decimal numeral of `n`, without leading zeros.
pub open spec fn decimal(n: nat) -> Seq<char>
    decreases n,
{
    if n < 10 {
        seq![digit_char(n)]
    } else {
        decimal(n / 10).push(digit_char(n % 10))
    }
}

/// An ASCII upper-case letter becomes its lower-case letter; any other character stays.
pub open spec fn ascii_lower(c: char) -> char {
    if 'A' <= c <= 'Z' {
        (c as u32 + 32) as char
    } else {
        c
    }
}

/// `s` with every character folded by `ascii_lower`.
pub open spec fn ascii_lowered(s: Seq<char>) -> Seq<char> {
    s.map_values(|c: char| ascii_lower(c))
}

/// `tail` is the end of `s`.
pub open spec fn ends_with(s: Seq<char>, tail: Seq<char>) -> bool {
    tail.len() <= s.len() && s.skip(s.len() - tail.len()) == tail
}

/// The characters with the Unicode property `White_Space`.
pub open spec fn is_white_space(c: char) -> bool {
    let n = c as u32;
    ||| 0x09 <= n <= 0x0d
    ||| n == 0x20
    ||| n == 0x85
    ||| n == 0xa0
    ||| n == 0x1680
    ||| 0x2000 <= n <= 0x200a
    ||| n == 0x2028
    ||| n == 0x2029
    ||| n == 0x202f
    ||| n == 0x205f
    ||| n == 0x3000
}

/// `s` without its leading white space.
pub open spec fn trimmed_start(s: Seq<char>) -> Seq<char>
    decreases s.len(),
{
    if s.len() > 0 && is_white_space(s.first()) {
        trimmed_start(s.drop_first())
    } else {
        s
    }
}

/// `s` without its trailing white space.
pub open spec fn trimmed_end(s: Seq<char>) -> Seq<char>
    decreases s.len(),
{
    if s.len() > 0 && is_white_space(s.last()) {
        trimmed_end(s.drop_last())
    } else {
        s
    }
}

/// `s` without the white space at either end.
pub open spec fn trimmed(s: Seq<char>) -> Seq<char> {
    trimmed_end(trimmed_start(s))
}

/// Calls `str::trim`. Claims that it takes off, at both ends, all characters with the
/// Unicode property `White_Space` and nothing else.
#[verifier::external_body]
fn std_trim(s: &str) -> (res: &str)
    ensures
        res@ == trimmed(s@),
{
    s.trim()
}

/// Calls `str::to_ascii_lowercase`. Claims that it maps `A` to `Z` onto `a` to `z` and
/// leaves every other character as it is.
#[verifier::external_body]
pub(crate) fn std_to_ascii_lowercase(s: &str) -> (res: String)
    ensures
        res@ == ascii_lowered(s@),
{
    s.to_ascii_lowercase()
}

/// Calls `str::ends_with`. Claims that it tells whether `tail` is a suffix of `s`.
#[verifier::external_body]
pub(crate) fn std_ends_with(s: &str, tail: &str) -> (res: bool)
    ensures
        res == ends_with(s@, tail@),
{
    s.ends_with(tail)
}

/// A copy of `s` without the white space at either end.
pub fn trim_text(s: &str) -> (res: String)
    ensures
        res@ == trimmed(s@),
{
    std_trim(s).to_owned()
}

/// Writes `n` in decimal.
pub fn decimal_text(n: u64) -> (res: String)
    ensures
        res@ == decimal(n as nat),
    decreases n,
{
    let digits = "0123456789";
    proof {
        reveal_strlit("0123456789");
        assert(digits.is_ascii());
    }
    let last: usize = (n % 10) as usize;
    let unit = digits.substring_ascii(last, last + 1);
    assert(unit@ == seq![digit_char((n % 10) as nat)]);
    if n < 10 {
        unit.to_owned()
    } else {
        decimal_text(n / 10).concat(unit)
    }
}

/// Trimming twice is trimming once.
pub proof fn trim_is_idempotent(s: Seq<char>)
    ensures
        trimmed(trimmed(s)) == trimmed(s),
{
    let inner = trimmed_start(s);
    trimmed_start_has_no_leading_space(s);
    trimmed_end_is_prefix(inner);
    let t = trimmed_end(inner);
    if t.len() > 0 {
        assert(t.first() == inner.first());
    }
    assert(trimmed_start(t) == t);
    trimmed_end_has_no_trailing_space(inner);
}

/// White space around a text makes no difference once it is trimmed.
pub proof fn trim_ignores_surrounding_space(before: Seq<char>, s: Seq<char>, after: Seq<char>)
    requires
        forall|i: int| 0 <= i < before.len() ==> is_white_space(#[trigger] before[i]),
        forall|i: int| 0 <= i < after.len() ==> is_white_space(#[trigger] after[i]),
    ensures
        trimmed(before + s + after) == trimmed(s),
{
    let rest = s + after;
    trimmed_start_skips_space(before, rest);
    assert(before + s + after == before + rest);
    if trimmed_start(s).len() == 0 {
        trimmed_start_of_space(s);
        assert forall|i: int| 0 <= i < rest.len() implies is_white_space(#[trigger] rest[i]) by {
            if i < s.len() {
                assert(rest[i] == s[i]);
            } else {
                assert(rest[i] == after[i - s.len()]);
            }
        }
        trimmed_start_skips_space(rest, Seq::empty());
        assert(rest + Seq::<char>::empty() == rest);
    } else {
        trimmed_start_keeps_tail(s, after);
        trimmed_end_skips_space(trimmed_start(s), after);
    }
}

proof fn trimmed_start_skips_space(before: Seq<char>, s: Seq<char>)
    requires
        forall|i: int| 0 <= i < before.len() ==> is_white_space(#[trigger] before[i]),
    ensures
        trimmed_start(before + s) == trimmed_start(s),
    decreases before.len(),
{
    if before.len() > 0 {
        let rest = before.drop_first();
        assert forall|i: int| 0 <= i < rest.len() implies is_white_space(#[trigger] rest[i]) by {
            assert(rest[i] == before[i + 1]);
        }
        trimmed_start_skips_space(rest, s);
        assert((before + s).first() == before[0]);
        assert((before + s).drop_first() == rest + s);
    } else {
        assert(before + s == s);
    }
}

proof fn trimmed_end_skips_space(s: Seq<char>, after: Seq<char>)
    requires
        forall|i: int| 0 <= i < after.len() ==> is_white_space(#[trigger] after[i]),
    ensures
        trimmed_end(s + after) == trimmed_end(s),
    decreases after.len(),
{
    if after.len() > 0 {
        let rest = after.drop_last();
        trimmed_end_skips_space(s, rest);
        assert((s + after).last() == after[after.len() - 1]);
        assert((s + after).drop_last() == s + rest);
    } else {
        assert(s + after == s);
    }
}

proof fn trimmed_start_of_space(s: Seq<char>)
    requires
        trimmed_start(s).len() == 0,
    ensures
        forall|i: int| 0 <= i < s.len() ==> is_white_space(#[trigger] s[i]),
    decreases s.len(),
{
    if s.len() > 0 {
        let rest = s.drop_first();
        trimmed_start_of_space(rest);
        assert forall|i: int| 0 <= i < s.len() implies is_white_space(#[trigger] s[i]) by {
            if i > 0 {
                assert(s[i] == rest[i - 1]);
            }
        }
    }
}

proof fn trimmed_start_keeps_tail(s: Seq<char>, after: Seq<char>)
    requires
        trimmed_start(s).len() > 0,
    ensures
        trimmed_start(s + after) == trimmed_start(s) + after,
    decreases s.len(),
{
    assert((s + after).first() == s.first());
    if is_white_space(s.first()) {
        trimmed_start_keeps_tail(s.drop_first(), after);
        assert((s + after).drop_first() == s.drop_first() + after);
    }
}

proof fn trimmed_start_has_no_leading_space(s: Seq<char>)
    ensures
        trimmed_start(s).len() > 0 ==> !is_white_space(trimmed_start(s).first()),
    decreases s.len(),
{
    if s.len() > 0 && is_white_space(s.first()) {
        trimmed_start_has_no_leading_space(s.drop_first());
    }
}

proof fn trimmed_end_has_no_trailing_space(s: Seq<char>)
    ensures
        trimmed_end(s).len() > 0 ==> !is_white_space(trimmed_end(s).last()),
    decreases s.len(),
{
    if s.len() > 0 && is_white_space(s.last()) {
        trimmed_end_has_no_trailing_space(s.drop_last());
    }
}

proof fn trimmed_end_is_prefix(s: Seq<char>)
    ensures
        trimmed_end(s).len() <= s.len(),
        trimmed_end(s) == s.take(trimmed_end(s).len() as int),
    decreases s.len(),
{
    if s.len() > 0 && is_white_space(s.last()) {
        trimmed_end_is_prefix(s.drop_last());
        assert(s.drop_last().take(trimmed_end(s).len() as int) == s.take(
            trimmed_end(s).len() as int,
        ));
    } else {
        assert(s.take(s.len() as int) == s);
    }
}

/// The number that a text of decimal digits writes.
pub open spec fn decimal_value(text: Seq<char>) -> int
    decreases text.len(),
{
    if text.len() == 0 {
        0
    } else {
        decimal_value(text.drop_last()) * 10 + (text.last() as int - '0' as int)
    }
}

/// A numeral reads back as the number that was written: it is made of decimal digits, it
/// writes the number, and it begins with a zero only if it is the numeral of zero.
pub proof fn numeral_reads_back(n: u64, text: String)
    requires
        call_ensures(decimal_text, (n,), text),
    ensures
        decimal_value(text@) == n,
        text@.len() > 0,
        forall|i: int| 0 <= i < text@.len() ==> '0' <= #[trigger] text@[i] <= '9',
        text@[0] == '0' <==> n == 0,
        n == 0 ==> text@.len() == 1,
{
    decimal_reads_back(n as nat);
}

/// The decimal numeral of a number writes that number, with decimal digits and without
/// leading zeros.
pub proof fn decimal_reads_back(n: nat)
    ensures
        decimal_value(decimal(n)) == n,
        decimal(n).len() > 0,
        forall|i: int| 0 <= i < decimal(n).len() ==> '0' <= #[trigger] decimal(n)[i] <= '9',
        decimal(n)[0] == '0' <==> n == 0,
        n == 0 ==> decimal(n).len() == 1,
    decreases n,
{
    reveal_strlit("0123456789");
    if n < 10 {
        assert(decimal(n).drop_last() == Seq::<char>::empty());
        assert(decimal_value(decimal(n).drop_last()) == 0);
    } else {
        decimal_reads_back(n / 10);
        assert(decimal(n).drop_last() == decimal(n / 10));
        assert forall|i: int| 0 <= i < decimal(n).len() implies '0' <= #[trigger] decimal(
            n,
        )[i] <= '9' by {
            if i < decimal(n / 10).len() {
                assert(decimal(n)[i] == decimal(n / 10)[i]);
            }
        }
        assert(decimal(n)[0] == decimal(n / 10)[0]);
    }
}

/// A text ends in `tail` exactly if it is something followed by `tail`.
pub proof fn ends_with_is_appended(s: Seq<char>, tail: Seq<char>)
    ensures
        ends_with(s, tail) <==> exists|front: Seq<char>| s == #[trigger] (front + tail),
{
    if ends_with(s, tail) {
        let front = s.take(s.len() - tail.len());
        assert(s == front + tail);
    }
    if exists|front: Seq<char>| s == #[trigger] (front + tail) {
        let front = choose|front: Seq<char>| s == #[trigger] (front + tail);
        assert(s.skip(s.len() - tail.len()) == tail);
    }
}

/// Two characters are the same, or are the upper-case and the lower-case form of one ASCII
/// letter.
pub open spec fn same_but_case(a: char, b: char) -> bool {
    ||| a == b
    ||| 'A' <= a <= 'Z' && b as int == a as int + 32
    ||| 'A' <= b <= 'Z' && a as int == b as int + 32
}

/// Folding makes two characters equal exactly if they differ at most in ASCII case, and it
/// leaves no upper-case letter.
pub proof fn folding_ignores_case_only(a: char, b: char)
    ensures
        ascii_lower(a) == ascii_lower(b) <==> same_but_case(a, b),
        !('A' <= ascii_lower(a) <= 'Z'),
{
}

/// Two texts fold to the same text exactly if they are equally long and differ, character by
/// character, at most in ASCII case.
pub proof fn folded_texts_are_equal(a: Seq<char>, b: Seq<char>)
    ensures
        ascii_lowered(a) == ascii_lowered(b) <==> a.len() == b.len() && forall|i: int|
            0 <= i < a.len() ==> same_but_case(#[trigger] a[i], b[i]),
{
    let x = ascii_lowered(a);
    let y = ascii_lowered(b);
    if x == y {
        assert(a.len() == x.len() && b.len() == y.len());
        assert forall|i: int| 0 <= i < a.len() implies same_but_case(#[trigger] a[i], b[i]) by {
            assert(x[i] == y[i]);
            folding_ignores_case_only(a[i], b[i]);
        }
    }
    if a.len() == b.len() && forall|i: int|
        0 <= i < a.len() ==> same_but_case(#[trigger] a[i], b[i]) {
        assert forall|i: int| 0 <= i < x.len() implies x[i] == y[i] by {
            folding_ignores_case_only(a[i], b[i]);
        }
        assert(x == y);
    }
}

/// Trimming takes off white space at both ends, all of it, and nothing else.
pub proof fn trim_takes_off_white_space(s: &str, res: String)
    requires
        call_ensures(trim_text, (s,), res),
    ensures
        is_trimmed_from(res@, s@),
{
    trimmed_text_is_trimmed(s@);
}

/// `t` is `s` without the white space at either end.
pub open spec fn is_trimmed_from(t: Seq<char>, s: Seq<char>) -> bool {
    &&& t.len() > 0 ==> !is_white_space(t[0]) && !is_white_space(t[t.len() - 1])
    &&& exists|before: Seq<char>, after: Seq<char>|
        {
            &&& s == #[trigger] (before + t + after)
            &&& forall|i: int| 0 <= i < before.len() ==> is_white_space(#[trigger] before[i])
            &&& forall|i: int| 0 <= i < after.len() ==> is_white_space(#[trigger] after[i])
        }
}

/// The trimmed text is the text between the white space at either end.
pub proof fn trimmed_text_is_trimmed(s: Seq<char>)
    ensures
        is_trimmed_from(trimmed(s), s),
{
    let inner = trimmed_start(s);
    let t = trimmed(s);
    let before = trimmed_start_parts(s);
    let after = trimmed_end_parts(inner);
    trimmed_start_has_no_leading_space(s);
    trimmed_end_has_no_trailing_space(inner);
    trimmed_end_is_prefix(inner);
    if t.len() > 0 {
        assert(t[0] == inner[0]);
    }
    assert(s == before + t + after);
}

proof fn trimmed_start_parts(s: Seq<char>) -> (before: Seq<char>)
    ensures
        s == before + trimmed_start(s),
        forall|i: int| 0 <= i < before.len() ==> is_white_space(#[trigger] before[i]),
    decreases s.len(),
{
    if s.len() > 0 && is_white_space(s.first()) {
        let rest = trimmed_start_parts(s.drop_first());
        let before = seq![s.first()] + rest;
        assert(s == seq![s.first()] + s.drop_first());
        assert(s == before + trimmed_start(s));
        assert forall|i: int| 0 <= i < before.len() implies is_white_space(#[trigger] before[i]) by {
            if i > 0 {
                assert(before[i] == rest[i - 1]);
            }
        }
        before
    } else {
        assert(s == Seq::<char>::empty() + s);
        Seq::empty()
    }
}

proof fn trimmed_end_parts(s: Seq<char>) -> (after: Seq<char>)
    ensures
        s == trimmed_end(s) + after,
        forall|i: int| 0 <= i < after.len() ==> is_white_space(#[trigger] after[i]),
    decreases s.len(),
{
    if s.len() > 0 && is_white_space(s.last()) {
        let rest = trimmed_end_parts(s.drop_last());
        let after = rest.push(s.last());
        assert(s == s.drop_last().push(s.last()));
        assert(s == trimmed_end(s) + after);
        after
    } else {
        assert(s == s + Seq::<char>::empty());
        Seq::empty()
    }
}

/// The white space that is trimmed, character by character.
pub proof fn white_space_characters(c: char)
    ensures
        is_white_space(c)
            <==> "\t\n\u{b}\u{c}\r \u{85}\u{a0}\u{1680}\u{2000}\u{2001}\u{2002}\u{2003}\u{2004}\u{2005}\u{2006}\u{2007}\u{2008}\u{2009}\u{200a}\u{2028}\u{2029}\u{202f}\u{205f}\u{3000}"@.contains(
            c,
        ),
{
    reveal_strlit(
        "\t\n\u{b}\u{c}\r \u{85}\u{a0}\u{1680}\u{2000}\u{2001}\u{2002}\u{2003}\u{2004}\u{2005}\u{2006}\u{2007}\u{2008}\u{2009}\u{200a}\u{2028}\u{2029}\u{202f}\u{205f}\u{3000}",
    );
    let all =
        "\t\n\u{b}\u{c}\r \u{85}\u{a0}\u{1680}\u{2000}\u{2001}\u{2002}\u{2003}\u{2004}\u{2005}\u{2006}\u{2007}\u{2008}\u{2009}\u{200a}\u{2028}\u{2029}\u{202f}\u{205f}\u{3000}"@;
    assert(all.len() == 25);
    if is_white_space(c) {
        let n = c as int;
        let i: int = if n <= 0x0d {
            n - 0x09
        } else if n == 0x20 {
            5
        } else if n == 0x85 {
            6
        } else if n == 0xa0 {
            7
        } else if n == 0x1680 {
            8
        } else if n <= 0x200a {
            9 + (n - 0x2000)
        } else if n == 0x2028 {
            20
        } else if n == 0x2029 {
            21
        } else if n == 0x202f {
            22
        } else if n == 0x205f {
            23
        } else {
            24
        };
        assert(0 <= i < 25);
        assert(all[i] as int == n);
        assert(all[i] == c);
    }
}

} // verus!
