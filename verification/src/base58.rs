//! Base58 in the Bitcoin alphabet.

use vstd::arithmetic::power::{lemma_pow_positive, pow};
use vstd::prelude::*;

verus! {

/// The 58 digits, in the order of their values.
pub const ALPHABET: &'static str = "123456789ABCDEFGHJKLMNPQRSTUVWXYZabcdefghijkmnopqrstuvwxyz";

/// `c` is one of the 58 digits.
pub open spec fn is_base58_char(c: char) -> bool {
    ALPHABET@.contains(c)
}

/// The digit whose value is `d`.
pub open spec fn base58_char(d: nat) -> char {
    ALPHABET@[d as int]
}

/// The number that `bytes` writes in base 256, most significant byte first.
pub open spec fn big_endian(bytes: Seq<u8>) -> nat
    decreases bytes.len(),
{
    if bytes.len() == 0 {
        0
    } else {
        big_endian(bytes.drop_last()) * 256 + bytes.last() as nat
    }
}

/// The Base58 numeral of `n`, most significant digit first; zero has no digits.
pub open spec fn base58_numeral(n: nat) -> Seq<char>
    decreases n,
{
    if n == 0 {
        Seq::empty()
    } else {
        base58_numeral(n / 58).push(base58_char(n % 58))
    }
}

/// How many zero bytes `bytes` begins with.
pub open spec fn leading_zeros(bytes: Seq<u8>) -> nat
    decreases bytes.len(),
{
    if bytes.len() > 0 && bytes.first() == 0 {
        1 + leading_zeros(bytes.drop_first())
    } else {
        0
    }
}

/// The Base58 text of `bytes`: one zero digit for each leading zero byte, then the
/// numeral of the big-endian number.
pub open spec fn base58(bytes: Seq<u8>) -> Seq<char> {
    Seq::new(leading_zeros(bytes), |i: int| base58_char(0)) + base58_numeral(big_endian(bytes))
}

/// The value of the digit `c`.
pub open spec fn base58_digit(c: char) -> nat {
    ALPHABET@.index_of(c) as nat
}

/// The number that `text` writes in base 58.
pub open spec fn base58_value(text: Seq<char>) -> nat
    decreases text.len(),
{
    if text.len() == 0 {
        0
    } else {
        base58_value(text.drop_last()) * 58 + base58_digit(text.last())
    }
}

/// Calls `bs58::encode` and its `into_string`, with the default alphabet and no checksum.
/// Claims that the text is the Base58 text of the 32 bytes.
#[verifier::external_body]
pub(crate) fn bs58_encode(bytes: &[u8; 32]) -> (res: String)
    ensures
        res@ == base58(bytes@),
{
    bs58::encode(bytes).into_string()
}

/// Every character of a Base58 text is a Base58 digit.
pub proof fn base58_text_is_base58(bytes: Seq<u8>)
    ensures
        forall|i: int| 0 <= i < base58(bytes).len() ==> is_base58_char(#[trigger] base58(bytes)[i]),
{
    reveal_strlit("123456789ABCDEFGHJKLMNPQRSTUVWXYZabcdefghijkmnopqrstuvwxyz");
    numeral_is_base58(big_endian(bytes));
    assert(is_base58_char(base58_char(0)));
    let zeros = Seq::new(leading_zeros(bytes), |i: int| base58_char(0));
    let digits = base58_numeral(big_endian(bytes));
    assert forall|i: int| 0 <= i < base58(bytes).len() implies is_base58_char(
        #[trigger] base58(bytes)[i],
    ) by {
        if i < zeros.len() {
            assert(base58(bytes)[i] == zeros[i]);
        } else {
            assert(base58(bytes)[i] == digits[i - zeros.len()]);
        }
    }
}

/// The text writes the same number as the bytes.
pub proof fn base58_text_keeps_value(bytes: Seq<u8>)
    ensures
        base58_value(base58(bytes)) == big_endian(bytes),
{
    numeral_value(leading_zeros(bytes), big_endian(bytes));
}

/// Two byte strings of one length with the same Base58 text are equal, so the text of a
/// public key determines the key.
pub proof fn base58_is_injective(a: Seq<u8>, b: Seq<u8>)
    requires
        a.len() == b.len(),
        base58(a) == base58(b),
    ensures
        a == b,
{
    base58_text_keeps_value(a);
    base58_text_keeps_value(b);
    big_endian_is_injective(a, b);
}

/// The text of 32 bytes, such as a public key, has at most 44 characters.
pub proof fn key_text_is_short(bytes: Seq<u8>)
    requires
        bytes.len() == 32,
    ensures
        base58(bytes).len() <= 44,
{
    let zeros = leading_zeros(bytes);
    leading_zeros_bound_value(bytes);
    let rest = (32 - zeros) as nat;
    base_256_fits_base_58(rest);
    numeral_len_bound(big_endian(bytes), rest + 12);
}

proof fn leading_zeros_bound_value(bytes: Seq<u8>)
    ensures
        leading_zeros(bytes) <= bytes.len(),
        big_endian(bytes) < pow(256, (bytes.len() - leading_zeros(bytes)) as nat),
    decreases bytes.len(),
{
    if bytes.len() > 0 && bytes.first() == 0 {
        leading_zeros_bound_value(bytes.drop_first());
        zero_byte_has_no_value(bytes);
    } else {
        value_bound(bytes);
    }
}

proof fn zero_byte_has_no_value(bytes: Seq<u8>)
    requires
        bytes.len() > 0,
        bytes.first() == 0,
    ensures
        big_endian(bytes) == big_endian(bytes.drop_first()),
    decreases bytes.len(),
{
    if bytes.len() > 1 {
        zero_byte_has_no_value(bytes.drop_last());
        assert(bytes.drop_last().drop_first() == bytes.drop_first().drop_last());
        assert(bytes.drop_first().last() == bytes.last());
    } else {
        assert(big_endian(bytes.drop_last()) == 0);
    }
}

proof fn value_bound(bytes: Seq<u8>)
    ensures
        big_endian(bytes) < pow(256, bytes.len()),
    decreases bytes.len(),
{
    reveal(pow);
    if bytes.len() > 0 {
        value_bound(bytes.drop_last());
    }
}

proof fn numeral_len_bound(n: nat, k: nat)
    requires
        n < pow(58, k),
    ensures
        base58_numeral(n).len() <= k,
    decreases k,
{
    reveal(pow);
    if n > 0 {
        assert(k > 0);
        numeral_len_bound(n / 58, (k - 1) as nat);
    }
}

proof fn base_256_fits_base_58(m: nat)
    requires
        m <= 32,
    ensures
        pow(256, m) <= pow(58, m + 12),
    decreases 32 - m,
{
    if m == 32 {
        assert(pow(256, 32) <= pow(58, 44)) by {
            reveal_with_fuel(pow, 45);
        }
    } else {
        base_256_fits_base_58(m + 1);
        reveal(pow);
        lemma_pow_positive(58, m + 12);
    }
}

proof fn numeral_is_base58(n: nat)
    ensures
        forall|i: int|
            0 <= i < base58_numeral(n).len() ==> is_base58_char(#[trigger] base58_numeral(n)[i]),
    decreases n,
{
    if n != 0 {
        reveal_strlit("123456789ABCDEFGHJKLMNPQRSTUVWXYZabcdefghijkmnopqrstuvwxyz");
        numeral_is_base58(n / 58);
        assert(is_base58_char(base58_char(n % 58)));
        let init = base58_numeral(n / 58);
        assert forall|i: int| 0 <= i < base58_numeral(n).len() implies is_base58_char(
            #[trigger] base58_numeral(n)[i],
        ) by {
            if i < init.len() {
                assert(base58_numeral(n)[i] == init[i]);
            }
        }
    }
}

proof fn digit_of_char(d: nat)
    requires
        d < 58,
    ensures
        base58_digit(base58_char(d)) == d,
{
    reveal_strlit("123456789ABCDEFGHJKLMNPQRSTUVWXYZabcdefghijkmnopqrstuvwxyz");
    assert(forall|i: int, j: int| 0 <= i < j < 58 ==> ALPHABET@[i] != ALPHABET@[j]);
    assert(ALPHABET@.contains(base58_char(d)));
    let k = ALPHABET@.index_of(base58_char(d));
    assert(0 <= k < 58 && ALPHABET@[k] == ALPHABET@[d as int]);
}

proof fn zeros_have_no_value(k: nat)
    ensures
        base58_value(Seq::new(k, |i: int| base58_char(0))) == 0,
    decreases k,
{
    if k > 0 {
        digit_of_char(0);
        zeros_have_no_value((k - 1) as nat);
        assert(Seq::new(k, |i: int| base58_char(0)).drop_last() == Seq::new(
            (k - 1) as nat,
            |i: int| base58_char(0),
        ));
    }
}

proof fn numeral_value(k: nat, n: nat)
    ensures
        base58_value(Seq::new(k, |i: int| base58_char(0)) + base58_numeral(n)) == n,
    decreases n,
{
    let zeros = Seq::new(k, |i: int| base58_char(0));
    if n == 0 {
        zeros_have_no_value(k);
        assert(zeros + base58_numeral(n) == zeros);
    } else {
        digit_of_char(n % 58);
        numeral_value(k, n / 58);
        let text = zeros + base58_numeral(n);
        assert(text.drop_last() == zeros + base58_numeral(n / 58));
        assert(text.last() == base58_char(n % 58));
    }
}

proof fn big_endian_is_injective(a: Seq<u8>, b: Seq<u8>)
    requires
        a.len() == b.len(),
        big_endian(a) == big_endian(b),
    ensures
        a == b,
    decreases a.len(),
{
    if a.len() > 0 {
        assert(a.last() == b.last());
        big_endian_is_injective(a.drop_last(), b.drop_last());
        assert(a == a.drop_last().push(a.last()));
        assert(b == b.drop_last().push(b.last()));
    } else {
        assert(a == b);
    }
}

/// A character that may stand in a Base58 text: an ASCII digit or letter, but for the four
/// that are easily mistaken, `0`, `O`, `I` and `l`.
pub open spec fn is_unmistakable(c: char) -> bool {
    ||| '1' <= c <= '9'
    ||| 'A' <= c <= 'Z' && c != 'I' && c != 'O'
    ||| 'a' <= c <= 'z' && c != 'l'
}

/// The Base58 digits are the ASCII digits and letters without `0`, `O`, `I` and `l`; there
/// are 58 of them, and they are ordered as the characters are.
pub proof fn base58_digits_are_unmistakable(c: char, d: char)
    ensures
        is_base58_char(c) <==> is_unmistakable(c),
        ALPHABET@.len() == 58,
        is_base58_char(c) && is_base58_char(d) && c < d ==> base58_digit(c) < base58_digit(d),
        is_base58_char(c) ==> base58_char(base58_digit(c)) == c,
{
    reveal_strlit("123456789ABCDEFGHJKLMNPQRSTUVWXYZabcdefghijkmnopqrstuvwxyz");
    let letters = ALPHABET@;
    assert(letters.len() == 58);
    assert(forall|i: int, j: int| 0 <= i < j < 58 ==> letters[i] < letters[j]);
    if is_unmistakable(c) {
        let i: int = if c <= '9' {
            c as int - '1' as int
        } else if c <= 'H' {
            9 + (c as int - 'A' as int)
        } else if c <= 'N' {
            17 + (c as int - 'J' as int)
        } else if c <= 'Z' {
            22 + (c as int - 'P' as int)
        } else if c <= 'k' {
            33 + (c as int - 'a' as int)
        } else {
            44 + (c as int - 'm' as int)
        };
        assert(0 <= i < 58);
        assert(letters[i] as int == c as int);
        assert(letters[i] == c);
    }
    if is_base58_char(c) {
        let i = letters.index_of(c);
        assert(0 <= i < 58 && letters[i] == c);
        assert(is_unmistakable(letters[i]));
        if is_base58_char(d) && c < d {
            let j = letters.index_of(d);
            assert(0 <= j < 58 && letters[j] == d);
        }
    }
}

/// A Base58 text begins with as many `1` as the bytes begin with zero bytes, and with no more.
pub proof fn base58_text_shows_zero_bytes(bytes: Seq<u8>)
    ensures
        ({
            let zeros = leading_zeros(bytes) as int;
            let text = base58(bytes);
            &&& zeros <= text.len() && zeros <= bytes.len()
            &&& forall|i: int| 0 <= i < zeros ==> #[trigger] text[i] == '1'
            &&& forall|i: int| 0 <= i < zeros ==> #[trigger] bytes[i] == 0
            &&& zeros < bytes.len() ==> bytes[zeros] != 0
            &&& zeros < text.len() ==> text[zeros] != '1'
        }),
{
    reveal_strlit("123456789ABCDEFGHJKLMNPQRSTUVWXYZabcdefghijkmnopqrstuvwxyz");
    leading_zeros_are_zero(bytes);
    numeral_has_no_leading_one(big_endian(bytes));
    let zeros = leading_zeros(bytes) as int;
    if zeros < base58(bytes).len() {
        assert(base58(bytes)[zeros] == base58_numeral(big_endian(bytes))[0]);
    }
}

proof fn leading_zeros_are_zero(bytes: Seq<u8>)
    ensures
        leading_zeros(bytes) <= bytes.len(),
        forall|i: int| 0 <= i < leading_zeros(bytes) ==> #[trigger] bytes[i] == 0,
        leading_zeros(bytes) < bytes.len() ==> bytes[leading_zeros(bytes) as int] != 0,
    decreases bytes.len(),
{
    if bytes.len() > 0 && bytes.first() == 0 {
        let rest = bytes.drop_first();
        leading_zeros_are_zero(rest);
        assert forall|i: int| 0 <= i < leading_zeros(bytes) implies #[trigger] bytes[i] == 0 by {
            if i > 0 {
                assert(bytes[i] == rest[i - 1]);
            }
        }
    }
}

proof fn numeral_has_no_leading_one(n: nat)
    ensures
        base58_numeral(n).len() > 0 ==> base58_numeral(n)[0] != '1',
        n > 0 ==> base58_numeral(n).len() > 0,
    decreases n,
{
    reveal_strlit("123456789ABCDEFGHJKLMNPQRSTUVWXYZabcdefghijkmnopqrstuvwxyz");
    if n > 0 {
        numeral_has_no_leading_one(n / 58);
        if n < 58 {
            assert(base58_numeral(n / 58) == Seq::<char>::empty());
            assert(base58_numeral(n)[0] == ALPHABET@[n as int]);
        } else {
            assert(base58_numeral(n)[0] == base58_numeral(n / 58)[0]);
        }
    }
}

} // verus!
