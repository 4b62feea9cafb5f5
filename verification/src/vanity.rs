//! Which keys count as a hit, which suffixes are worth searching for, and how long a
//! search is expected to take.

use vstd::arithmetic::power::{lemma_pow_adds, lemma_pow_increases, lemma_pow_positive, pow};
use vstd::prelude::*;
use vstd::utf8::{encode_utf8, is_ascii_chars, is_ascii_chars_encode_utf8};

use crate::base58::{
    base58, base58_digits_are_unmistakable, base58_text_is_base58, bs58_encode, is_base58_char,
    is_unmistakable, ALPHABET,
};
use crate::text::{
    ascii_lowered, decimal, decimal_text, ends_with, ends_with_is_appended,
    folded_texts_are_equal, is_white_space, same_but_case, std_ends_with,
    std_to_ascii_lowercase, trimmed,
};

verus! {

/// The longest suffix that may be searched for, in UTF-8 bytes.
pub const MAX_SUFFIX_LEN: usize = 8;

/// How many digits the estimate counts when letter case matters.
pub const EXACT_CHARSET: u64 = 58;

/// How many digits the estimate counts when letter case is ignored.
pub const FOLDED_CHARSET: u64 = 34;

/// The message for an empty suffix.
pub const EMPTY_SUFFIX: &'static str = "Suffix must not be empty";

/// The message for a suffix of more than `MAX_SUFFIX_LEN` bytes.
pub const LONG_SUFFIX: &'static str =
    "Suffix too long (max 8 characters). Longer suffixes may take unreasonably long.";

/// What is searched for, and with how many threads.
#[derive(Debug)]
pub struct VanityConfig {
    pub suffix: String,
    pub case_insensitive: bool,
    pub num_threads: usize,
}

impl Clone for VanityConfig {
    fn clone(&self) -> (res: Self)
        ensures
            res@ == self@,
    {
        VanityConfig {
            suffix: self.suffix.clone(),
            case_insensitive: self.case_insensitive,
            num_threads: self.num_threads,
        }
    }
}

/// The contents of a `VanityConfig`.
pub struct ConfigModel {
    pub suffix: Seq<char>,
    pub case_insensitive: bool,
    pub num_threads: usize,
}

impl View for VanityConfig {
    type V = ConfigModel;

    open spec fn view(&self) -> ConfigModel {
        ConfigModel {
            suffix: self.suffix@,
            case_insensitive: self.case_insensitive,
            num_threads: self.num_threads,
        }
    }
}

/// A key pair that was found, in the forms in which it is handed out.
#[derive(Debug)]
pub struct VanityResult {
    pub public_key_base58: String,
    pub secret_key_bytes: [u8; 32],
    pub full_keypair_bytes: Vec<u8>,
    pub attempts: u64,
}

impl Clone for VanityResult {
    fn clone(&self) -> (res: Self)
        ensures
            res.public_key_base58@ == self.public_key_base58@,
            res.secret_key_bytes@ == self.secret_key_bytes@,
            res.full_keypair_bytes@ == self.full_keypair_bytes@,
            res.attempts == self.attempts,
    {
        let full_keypair_bytes = self.full_keypair_bytes.clone();
        assert(full_keypair_bytes@ == self.full_keypair_bytes@);
        VanityResult {
            public_key_base58: self.public_key_base58.clone(),
            secret_key_bytes: self.secret_key_bytes,
            full_keypair_bytes,
            attempts: self.attempts,
        }
    }
}

/// Calls `num_cpus::get`. Claims that the number of logical processors is at least one;
/// how many there are depends on the machine and is left open.
#[verifier::external_body]
pub(crate) fn num_cpus_get() -> (res: usize)
    ensures
        res >= 1,
{
    num_cpus::get()
}

/// `n` is a number of processors that the machine was asked for. A contract that says so can
/// be met only by asking.
pub closed spec fn processors_counted(n: usize) -> bool {
    call_ensures(num_cpus_get, (), n)
}

/// Asks the machine for the number of its processors.
pub(crate) fn count_processors() -> (res: usize)
    ensures
        res >= 1,
        processors_counted(res),
{
    num_cpus_get()
}

/// A counted number of processors is what `num_cpus::get` returned.
pub(crate) proof fn counted_processors_come_from_the_machine(n: usize)
    requires
        processors_counted(n),
    ensures
        call_ensures(num_cpus_get, (), n),
{
}

/// The search that is set up where nothing else is asked for: for the empty suffix, with
/// letter case, in one thread for each processor.
pub open spec fn default_search(processors: usize) -> ConfigModel {
    ConfigModel { suffix: Seq::empty(), case_insensitive: false, num_threads: processors }
}

impl VanityConfig {
    /// The default search on a machine with so many processors.
    pub fn for_processors(processors: usize) -> (res: VanityConfig)
        ensures
            res@ == default_search(processors),
    {
        VanityConfig { suffix: String::new(), case_insensitive: false, num_threads: processors }
    }
}

impl Default for VanityConfig {
    /// The default search on this machine. The number of its processors is what the machine
    /// was asked for; it is left open, beyond that there is at least one.
    fn default() -> (res: Self)
        ensures
            exists|processors: usize|
                {
                    &&& processors >= 1
                    &&& processors_counted(processors)
                    &&& res@ == #[trigger] default_search(processors)
                },
    {
        let processors: usize = count_processors();
        VanityConfig::for_processors(processors)
    }
}

/// The Base58 text of `public_key` ends in `suffix`; with `case_insensitive`, after
/// folding the ASCII letters of both to lower case.
pub open spec fn key_matches(
    public_key: Seq<u8>,
    suffix: Seq<char>,
    case_insensitive: bool,
) -> bool {
    if case_insensitive {
        ends_with(ascii_lowered(base58(public_key)), ascii_lowered(suffix))
    } else {
        ends_with(base58(public_key), suffix)
    }
}

/// Tells whether a public key is a hit for `suffix`.
pub fn matches_suffix(pubkey_bytes: &[u8; 32], suffix: &str, case_insensitive: bool) -> (res: bool)
    ensures
        res == key_matches(pubkey_bytes@, suffix@, case_insensitive),
{
    let encoded = bs58_encode(pubkey_bytes);
    if case_insensitive {
        std_ends_with(
            std_to_ascii_lowercase(encoded.as_str()).as_str(),
            std_to_ascii_lowercase(suffix).as_str(),
        )
    } else {
        std_ends_with(encoded.as_str(), suffix)
    }
}

/// How many characters of `s`, from the first on, are Base58 digits.
pub open spec fn base58_prefix_len(s: Seq<char>) -> nat
    decreases s.len(),
{
    if s.len() > 0 && is_base58_char(s.first()) {
        1 + base58_prefix_len(s.drop_first())
    } else {
        0
    }
}

/// The message for the character `c`, which is no Base58 digit, at index `position`.
pub open spec fn bad_character(c: char, position: nat) -> Seq<char> {
    "Character '"@ + seq![c] + "' at position "@ + decimal(position)
        + " is not valid base58. Note: base58 excludes 0, O, I, l"@
}

/// What is wrong with a suffix: it is empty, or too long, or holds a character that is no
/// Base58 digit, of which the first is named. `None` if nothing is.
pub open spec fn suffix_error(s: Seq<char>) -> Option<Seq<char>> {
    let valid = base58_prefix_len(s);
    if s.len() == 0 {
        Some(EMPTY_SUFFIX@)
    } else if encode_utf8(s).len() > MAX_SUFFIX_LEN {
        Some(LONG_SUFFIX@)
    } else if valid < s.len() {
        Some(bad_character(s[valid as int], valid))
    } else {
        None
    }
}

/// A suffix that `validate_suffix` accepts.
pub open spec fn is_valid_suffix(s: Seq<char>) -> bool {
    suffix_error(s) is None
}

/// Tells whether `c` is a Base58 digit.
fn is_base58(c: char) -> (res: bool)
    ensures
        res == is_base58_char(c),
{
    for digit in digits: ALPHABET.chars()
        invariant
            digits.seq() == ALPHABET@,
            forall|k: int| 0 <= k < digits.index() ==> ALPHABET@[k] != c,
    {
        if digit == c {
            assert(ALPHABET@[digits.index() as int] == c);
            return true;
        }
    }
    false
}

/// Accepts a suffix of one to eight bytes that is made of Base58 digits; otherwise says
/// what is wrong with it.
pub fn validate_suffix(suffix: &str) -> (res: Result<(), String>)
    ensures
        match res {
            Ok(_) => suffix_error(suffix@) is None,
            Err(message) => suffix_error(suffix@) == Some(message@),
        },
{
    if suffix.is_empty() {
        return Err(EMPTY_SUFFIX.to_owned());
    }
    if suffix.as_bytes().len() > MAX_SUFFIX_LEN {
        return Err(LONG_SUFFIX.to_owned());
    }
    let count = suffix.unicode_len();
    for i in 0..count
        invariant
            count == suffix@.len(),
            count > 0,
            encode_utf8(suffix@).len() <= MAX_SUFFIX_LEN,
            forall|k: int| 0 <= k < i ==> is_base58_char(#[trigger] suffix@[k]),
    {
        if !is_base58(suffix.get_char(i)) {
            proof {
                base58_prefix_ends(suffix@, i as nat);
            }
            let c = suffix.substring_char(i, i + 1);
            assert(c@ == seq![suffix@[i as int]]);
            let message = "Character '".to_owned().concat(c).concat("' at position ").concat(
                decimal_text(i as u64).as_str(),
            ).concat(" is not valid base58. Note: base58 excludes 0, O, I, l");
            return Err(message);
        }
    }
    proof {
        base58_prefix_ends(suffix@, count as nat);
    }
    Ok(())
}

proof fn base58_prefix_ends(s: Seq<char>, n: nat)
    requires
        n <= s.len(),
        forall|k: int| 0 <= k < n ==> is_base58_char(#[trigger] s[k]),
        n < s.len() ==> !is_base58_char(s[n as int]),
    ensures
        base58_prefix_len(s) == n,
    decreases n,
{
    if n > 0 {
        let rest = s.drop_first();
        assert(is_base58_char(s[0]));
        assert forall|k: int| 0 <= k < n - 1 implies is_base58_char(#[trigger] rest[k]) by {
            assert(rest[k] == s[k + 1]);
        }
        base58_prefix_ends(rest, (n - 1) as nat);
    }
}

/// The number of digits that one more character of the suffix multiplies the estimate by.
pub open spec fn charset_size(case_insensitive: bool) -> nat {
    if case_insensitive {
        FOLDED_CHARSET as nat
    } else {
        EXACT_CHARSET as nat
    }
}

/// How many keys have to be drawn, on average, for a suffix of `suffix_len` characters.
pub open spec fn expected_attempts(suffix_len: nat, case_insensitive: bool) -> int {
    pow(charset_size(case_insensitive) as int, suffix_len)
}

/// The expected number of attempts, or `None` if it exceeds the range of `u64`.
pub fn estimate_attempts(suffix_len: usize, case_insensitive: bool) -> (res: Option<u64>)
    ensures
        match res {
            Some(n) => n == expected_attempts(suffix_len as nat, case_insensitive),
            None => expected_attempts(suffix_len as nat, case_insensitive) > u64::MAX,
        },
{
    let size: u64 = if case_insensitive {
        FOLDED_CHARSET
    } else {
        EXACT_CHARSET
    };
    let mut total: u64 = 1;
    proof {
        reveal(pow);
    }
    for i in 0..suffix_len
        invariant
            size == charset_size(case_insensitive),
            size > 0,
            total == pow(size as int, i as nat),
    {
        proof {
            reveal(pow);
            lemma_pow_increases(size as nat, (i + 1) as nat, suffix_len as nat);
            assert(pow(size as int, (i + 1) as nat) == size * total);
            assert(size * total == total * size) by (nonlinear_arith);
        }
        match total.checked_mul(size) {
            Some(next) => {
                total = next;
            },
            None => {
                return None;
            },
        }
    }
    Some(total)
}

/// The empty suffix is the end of every text, so every key matches it.
pub proof fn every_key_matches_empty_suffix(public_key: Seq<u8>, case_insensitive: bool)
    ensures
        key_matches(public_key, Seq::empty(), case_insensitive),
{
    let text = base58(public_key);
    assert(text.skip(text.len() as int) == Seq::<char>::empty());
    let folded = ascii_lowered(text);
    assert(folded.skip(folded.len() as int) == Seq::<char>::empty());
    assert(ascii_lowered(Seq::empty()) == Seq::<char>::empty());
}

/// A hit with letter case is also a hit without.
pub proof fn exact_match_is_folded_match(public_key: Seq<u8>, suffix: Seq<char>)
    requires
        key_matches(public_key, suffix, false),
    ensures
        key_matches(public_key, suffix, true),
{
    let text = base58(public_key);
    assert(ascii_lowered(text).skip(text.len() - suffix.len()) == ascii_lowered(
        text.skip(text.len() - suffix.len()),
    ));
}

/// Without letter case, two suffixes that differ only in case have the same hits.
pub proof fn folded_match_ignores_case(public_key: Seq<u8>, a: Seq<char>, b: Seq<char>)
    requires
        ascii_lowered(a) == ascii_lowered(b),
    ensures
        key_matches(public_key, a, true) == key_matches(public_key, b, true),
{
}

/// A hit for a suffix is a hit for every shorter end of that suffix.
pub proof fn match_covers_shorter_suffix(
    public_key: Seq<u8>,
    suffix: Seq<char>,
    case_insensitive: bool,
    start: int,
)
    requires
        0 <= start <= suffix.len(),
        key_matches(public_key, suffix, case_insensitive),
    ensures
        key_matches(public_key, suffix.skip(start), case_insensitive),
{
    let text = if case_insensitive {
        ascii_lowered(base58(public_key))
    } else {
        base58(public_key)
    };
    let tail = if case_insensitive {
        ascii_lowered(suffix)
    } else {
        suffix
    };
    assert(ascii_lowered(suffix.skip(start)) == ascii_lowered(suffix).skip(start));
    assert(text.skip(text.len() - (tail.len() - start)) == text.skip(
        text.len() - tail.len(),
    ).skip(start));
}

/// With letter case, a suffix that holds a character other than a Base58 digit has no
/// hits: what `validate_suffix` refuses for its characters could never be found.
pub proof fn match_needs_base58_suffix(public_key: Seq<u8>, suffix: Seq<char>)
    requires
        key_matches(public_key, suffix, false),
    ensures
        base58_prefix_len(suffix) == suffix.len(),
{
    let text = base58(public_key);
    base58_text_is_base58(public_key);
    assert forall|k: int| 0 <= k < suffix.len() implies is_base58_char(#[trigger] suffix[k]) by {
        assert(suffix[k] == text[text.len() - suffix.len() + k]);
    }
    base58_prefix_ends(suffix, suffix.len());
}

/// A suffix is valid exactly if it has one to eight characters, all of them Base58 digits.
pub proof fn valid_suffix_shape(s: Seq<char>)
    ensures
        is_valid_suffix(s) <==> 1 <= s.len() <= MAX_SUFFIX_LEN && forall|k: int|
            0 <= k < s.len() ==> is_base58_char(#[trigger] s[k]),
{
    if base58_prefix_len(s) == s.len() {
        base58_prefix_holds(s);
    }
    if forall|k: int| 0 <= k < s.len() ==> is_base58_char(#[trigger] s[k]) {
        base58_prefix_ends(s, s.len());
        base58_is_ascii(s);
        is_ascii_chars_encode_utf8(s);
    }
    base58_prefix_bound(s);
}

/// A valid suffix has as many bytes as characters.
pub proof fn valid_suffix_is_ascii(s: Seq<char>)
    requires
        is_valid_suffix(s),
    ensures
        encode_utf8(s).len() == s.len(),
{
    valid_suffix_shape(s);
    base58_is_ascii(s);
    is_ascii_chars_encode_utf8(s);
}

/// A valid suffix has no white space to trim.
pub proof fn valid_suffix_needs_no_trim(s: Seq<char>)
    requires
        is_valid_suffix(s),
    ensures
        trimmed(s) == s,
{
    reveal_strlit("123456789ABCDEFGHJKLMNPQRSTUVWXYZabcdefghijkmnopqrstuvwxyz");
    valid_suffix_shape(s);
    assert(is_base58_char(s[0]));
    assert(is_base58_char(s[s.len() - 1]));
    assert(!is_white_space(s.first()) && !is_white_space(s.last()));
}

/// Each further character multiplies the estimate by the number of digits.
pub proof fn estimate_grows_by_charset(suffix_len: nat, case_insensitive: bool)
    ensures
        expected_attempts(0, case_insensitive) == 1,
        expected_attempts(suffix_len + 1, case_insensitive) == charset_size(case_insensitive)
            * expected_attempts(suffix_len, case_insensitive),
{
    reveal(pow);
}

/// The estimate for two suffixes in a row is the product of their estimates.
pub proof fn estimates_multiply(a: nat, b: nat, case_insensitive: bool)
    ensures
        expected_attempts(a + b, case_insensitive) == expected_attempts(a, case_insensitive)
            * expected_attempts(b, case_insensitive),
{
    lemma_pow_adds(charset_size(case_insensitive) as int, a, b);
}

/// Ignoring letter case lowers the estimate, unless the suffix is empty.
pub proof fn folded_estimate_is_lower(suffix_len: nat)
    ensures
        suffix_len > 0 ==> expected_attempts(suffix_len, true) < expected_attempts(
            suffix_len,
            false,
        ),
        expected_attempts(0, true) == expected_attempts(0, false),
    decreases suffix_len,
{
    reveal(pow);
    if suffix_len > 0 {
        let n = (suffix_len - 1) as nat;
        folded_estimate_is_lower(n);
        lemma_pow_positive(34, n);
    }
}

/// The estimate for a suffix of allowed length stays below two to the power 53, so it is
/// an exact number of attempts in every representation it is given out in.
pub proof fn estimate_of_allowed_length_is_exact(suffix_len: nat, case_insensitive: bool)
    requires
        suffix_len <= MAX_SUFFIX_LEN,
    ensures
        1 <= expected_attempts(suffix_len, case_insensitive) < 0x20_0000_0000_0000,
{
    lemma_pow_positive(charset_size(case_insensitive) as int, suffix_len);
    folded_estimate_is_lower(suffix_len);
    lemma_pow_increases(58, suffix_len, 8);
    assert(pow(58, 8) == 128063081718016) by {
        reveal_with_fuel(pow, 9);
    }
}

proof fn base58_is_ascii(s: Seq<char>)
    requires
        forall|k: int| 0 <= k < s.len() ==> is_base58_char(#[trigger] s[k]),
    ensures
        is_ascii_chars(s),
{
    reveal_strlit("123456789ABCDEFGHJKLMNPQRSTUVWXYZabcdefghijkmnopqrstuvwxyz");
    assert forall|k: int| 0 <= k < s.len() implies '\0' <= #[trigger] s[k] <= '\u{7f}' by {
        assert(is_base58_char(s[k]));
    }
}

proof fn base58_prefix_bound(s: Seq<char>)
    ensures
        base58_prefix_len(s) <= s.len(),
    decreases s.len(),
{
    if s.len() > 0 {
        base58_prefix_bound(s.drop_first());
    }
}

proof fn base58_prefix_holds(s: Seq<char>)
    requires
        base58_prefix_len(s) == s.len(),
    ensures
        forall|k: int| 0 <= k < s.len() ==> is_base58_char(#[trigger] s[k]),
    decreases s.len(),
{
    if s.len() > 0 {
        let rest = s.drop_first();
        base58_prefix_holds(rest);
        assert forall|k: int| 0 <= k < s.len() implies is_base58_char(#[trigger] s[k]) by {
            if k > 0 {
                assert(s[k] == rest[k - 1]);
            }
        }
    }
}

/// `text` is something followed by `suffix`; with `case_insensitive`, by a text that differs
/// from `suffix` at most in ASCII case.
pub open spec fn text_ends_in(
    text: Seq<char>,
    suffix: Seq<char>,
    case_insensitive: bool,
) -> bool {
    exists|front: Seq<char>, end: Seq<char>|
        {
            &&& text == #[trigger] (front + end)
            &&& end.len() == suffix.len()
            &&& forall|i: int|
                0 <= i < end.len() ==> if case_insensitive {
                    same_but_case(#[trigger] end[i], suffix[i])
                } else {
                    end[i] == suffix[i]
                }
        }
}

/// A public key is told to be a hit exactly if its Base58 text ends in the suffix, with or
/// without letter case as asked.
pub proof fn hit_means_text_ends_in_suffix(
    pubkey_bytes: &[u8; 32],
    suffix: &str,
    case_insensitive: bool,
    res: bool,
)
    requires
        call_ensures(matches_suffix, (pubkey_bytes, suffix, case_insensitive), res),
    ensures
        res <==> text_ends_in(base58(pubkey_bytes@), suffix@, case_insensitive),
{
    key_matches_as_text(pubkey_bytes@, suffix@, case_insensitive);
}

/// A key is a hit exactly if its Base58 text ends in the suffix.
pub proof fn key_matches_as_text(public_key: Seq<u8>, suffix: Seq<char>, case_insensitive: bool)
    ensures
        key_matches(public_key, suffix, case_insensitive) <==> text_ends_in(
            base58(public_key),
            suffix,
            case_insensitive,
        ),
{
    let text = base58(public_key);
    if key_matches(public_key, suffix, case_insensitive) {
        assert(ascii_lowered(text).len() == text.len());
        assert(ascii_lowered(suffix).len() == suffix.len());
        let cut = text.len() - suffix.len();
        let front = text.take(cut);
        let end = text.skip(cut);
        assert(text == front + end);
        if case_insensitive {
            assert(ascii_lowered(end) == ascii_lowered(text).skip(cut));
            folded_texts_are_equal(end, suffix);
        }
    }
    if text_ends_in(text, suffix, case_insensitive) {
        let (front, end) = choose|front: Seq<char>, end: Seq<char>|
            {
                &&& text == #[trigger] (front + end)
                &&& end.len() == suffix.len()
                &&& forall|i: int|
                    0 <= i < end.len() ==> if case_insensitive {
                        same_but_case(#[trigger] end[i], suffix[i])
                    } else {
                        end[i] == suffix[i]
                    }
            };
        if case_insensitive {
            folded_texts_are_equal(end, suffix);
            assert(ascii_lowered(text) == ascii_lowered(front) + ascii_lowered(end));
            ends_with_is_appended(ascii_lowered(text), ascii_lowered(suffix));
        } else {
            assert(end == suffix);
            ends_with_is_appended(text, suffix);
        }
    }
}

/// A suffix that may be searched for: one to eight of the characters that a Base58 text is
/// made of.
pub open spec fn is_searchable(s: Seq<char>) -> bool {
    1 <= s.len() <= 8 && forall|i: int| 0 <= i < s.len() ==> is_unmistakable(#[trigger] s[i])
}

/// What is said of a suffix that may not be searched for: that it is empty; else that it has
/// more than eight bytes; else which is the first character that may not stand in it, and
/// where.
pub open spec fn is_complaint(s: Seq<char>, message: Seq<char>) -> bool {
    if s.len() == 0 {
        message == "Suffix must not be empty"@
    } else if encode_utf8(s).len() > 8 {
        message
            == "Suffix too long (max 8 characters). Longer suffixes may take unreasonably long."@
    } else {
        exists|i: int|
            {
                &&& 0 <= i < s.len()
                &&& !is_unmistakable(#[trigger] s[i])
                &&& forall|k: int| 0 <= k < i ==> is_unmistakable(#[trigger] s[k])
                &&& message == "Character '"@ + seq![s[i]] + "' at position "@ + decimal(i as nat)
                    + " is not valid base58. Note: base58 excludes 0, O, I, l"@
            }
    }
}

/// A suffix is accepted exactly if it may be searched for; otherwise the first thing that is
/// wrong with it is said.
pub proof fn suffix_is_judged_by_its_characters(suffix: &str, res: Result<(), String>)
    requires
        call_ensures(validate_suffix, (suffix,), res),
    ensures
        res is Ok <==> is_searchable(suffix@),
        res matches Err(message) ==> is_complaint(suffix@, message@),
{
    suffix_error_is_a_complaint(suffix@);
}

/// A valid suffix is one that may be searched for, and the error of another says what is wrong.
pub proof fn suffix_error_is_a_complaint(s: Seq<char>)
    ensures
        suffix_error(s) is None <==> is_searchable(s),
        suffix_error(s) matches Some(message) ==> is_complaint(s, message),
        is_searchable(s) ==> encode_utf8(s).len() == s.len(),
{
    valid_suffix_shape(s);
    assert forall|i: int| 0 <= i < s.len() implies is_base58_char(s[i]) == is_unmistakable(
        #[trigger] s[i],
    ) by {
        base58_digits_are_unmistakable(s[i], s[i]);
    }
    assert(is_valid_suffix(s) <==> is_searchable(s));
    if is_searchable(s) {
        valid_suffix_is_ascii(s);
    } else if s.len() > 0 && encode_utf8(s).len() <= 8 {
        let n = base58_prefix_len(s);
        base58_prefix_bound(s);
        base58_prefix_is_base58(s);
        assert(n < s.len());
        assert(!is_unmistakable(s[n as int]));
    }
}

proof fn base58_prefix_is_base58(s: Seq<char>)
    ensures
        base58_prefix_len(s) <= s.len(),
        forall|k: int| 0 <= k < base58_prefix_len(s) ==> is_base58_char(#[trigger] s[k]),
        base58_prefix_len(s) < s.len() ==> !is_base58_char(s[base58_prefix_len(s) as int]),
    decreases s.len(),
{
    if s.len() > 0 && is_base58_char(s.first()) {
        let rest = s.drop_first();
        base58_prefix_is_base58(rest);
        assert forall|k: int| 0 <= k < base58_prefix_len(s) implies is_base58_char(
            #[trigger] s[k],
        ) by {
            if k > 0 {
                assert(s[k] == rest[k - 1]);
            }
        }
    }
}

/// The odds against a key, for a suffix of so many characters: one in 58 for each character,
/// or one in 34 if letter case is ignored.
pub open spec fn odds(suffix_len: nat, case_insensitive: bool) -> int {
    if case_insensitive {
        pow(34, suffix_len)
    } else {
        pow(58, suffix_len)
    }
}

/// The estimate is 58 to the power of the length, or 34 if letter case is ignored, and is
/// given wherever it fits.
pub proof fn estimate_is_a_power(suffix_len: usize, case_insensitive: bool, res: Option<u64>)
    requires
        call_ensures(estimate_attempts, (suffix_len, case_insensitive), res),
    ensures
        res matches Some(n) ==> n == odds(suffix_len as nat, case_insensitive),
        res is Some <==> odds(suffix_len as nat, case_insensitive) <= u64::MAX,
{
}

/// The default search is for nothing in particular, with letter case, in as many threads as
/// the machine has processors.
pub proof fn default_search_uses_every_processor(res: VanityConfig, processors: usize)
    ensures
        call_ensures(VanityConfig::for_processors, (processors,), res) ==> {
            &&& res.suffix@.len() == 0
            &&& !res.case_insensitive
            &&& res.num_threads == processors
        },
        call_ensures(<VanityConfig as Default>::default, (), res) ==> {
            &&& res.suffix@.len() == 0
            &&& !res.case_insensitive
            &&& res.num_threads >= 1
            &&& processors_counted(res.num_threads)
        },
{
}

/// A copy of a search, or of a result, is equal in every field.
pub proof fn copies_are_equal(
    config: VanityConfig,
    config_copy: VanityConfig,
    result: VanityResult,
    result_copy: VanityResult,
)
    requires
        call_ensures(VanityConfig::clone, (&config,), config_copy),
        call_ensures(VanityResult::clone, (&result,), result_copy),
    ensures
        config_copy.suffix@ == config.suffix@,
        config_copy.case_insensitive == config.case_insensitive,
        config_copy.num_threads == config.num_threads,
        result_copy.public_key_base58@ == result.public_key_base58@,
        result_copy.secret_key_bytes@ == result.secret_key_bytes@,
        result_copy.full_keypair_bytes@ == result.full_keypair_bytes@,
        result_copy.attempts == result.attempts,
{
}

} // verus!
