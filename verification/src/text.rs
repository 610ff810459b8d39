//! Verified text utilities: decimal rendering and parsing of integers,
//! whitespace tokenisation, substring search, the case folding used by the
//! name search, and the grapheme count used by the rename validation.

use vstd::prelude::*;
use vstd::string::*;
use unicode_segmentation::UnicodeSegmentation;

verus! {

/// The number of user-perceived characters (extended grapheme clusters) of a
/// string.  The clusters partition the string and each holds at least one
/// code point, so the count never exceeds the code-point count and a
/// non-empty string has at least one cluster.
pub uninterp spec fn grapheme_count_of(s: Seq<char>) -> nat;

/// Relies on `unicode_segmentation`'s `graphemes`: it splits a string into
/// extended grapheme clusters, a partition of the string into non-empty
/// pieces that depends on the characters alone.
#[verifier::external_body]
pub fn grapheme_count(s: &str) -> (n: usize)
    ensures
        n == grapheme_count_of(s@),
        n <= s@.len(),
        s@.len() > 0 ==> n >= 1,
{
    s.graphemes(true).count()
}

/// The lowercase form of a string: the Unicode lowercase mapping applied
/// to every character, a pure function of the characters alone.
pub uninterp spec fn lower_of(s: Seq<char>) -> Seq<char>;

/// Relies on `str::to_lowercase` of the standard library: the Unicode
/// lowercase mapping, which its documentation states depends on the
/// characters alone and not on any locale; an empty string stays empty.
#[verifier::external_body]
pub fn lowercase(s: &str) -> (r: String)
    ensures
        r@ == lower_of(s@),
        s@.len() == 0 ==> r@.len() == 0,
{
    s.to_lowercase()
}

/// The needle occurs verbatim in the haystack at offset `at`.
pub open spec fn spec_match_at(hay: Seq<char>, needle: Seq<char>, at: int) -> bool {
    &&& 0 <= at
    &&& at + needle.len() <= hay.len()
    &&& forall|k: int| 0 <= k < needle.len() ==> hay[at + k] == needle[k]
}

/// The haystack holds the needle verbatim somewhere.
pub open spec fn spec_contains_sub(hay: Seq<char>, needle: Seq<char>) -> bool {
    exists|at: int| spec_match_at(hay, needle, at)
}

/// Whether `hay` holds `needle` as a verbatim substring.
pub fn contains_sub(hay: &str, needle: &str) -> (r: bool)
    ensures
        r == spec_contains_sub(hay@, needle@),
{
    let hay_len = hay.unicode_len();
    let needle_len = needle.unicode_len();
    if needle_len > hay_len {
        return false;
    }
    let mut at: usize = 0;
    while at <= hay_len - needle_len
        invariant
            needle_len == needle@.len(),
            hay_len == hay@.len(),
            needle_len <= hay_len,
            at <= hay_len - needle_len + 1,
            forall|a: int| 0 <= a < at ==> !spec_match_at(hay@, needle@, a),
        decreases hay_len - needle_len - at + 1,
    {
        let mut k: usize = 0;
        let mut all_eq = true;
        while k < needle_len
            invariant
                needle_len == needle@.len(),
                hay_len == hay@.len(),
                needle_len <= hay_len,
                at + needle_len <= hay_len,
                k <= needle_len,
                all_eq == forall|j: int| 0 <= j < k ==> hay@[at + j] == needle@[j],
                !all_eq ==> k == needle_len,
            decreases needle_len - k,
        {
            let he = hay.get_char(at + k);
            let ne = needle.get_char(k);
            if he != ne {
                all_eq = false;
                k = needle_len;
            } else {
                proof {
                    assert(hay@[at + k] == needle@[k as int]);
                    assert(forall|j: int| 0 <= j < k + 1 ==> hay@[at + j] == needle@[j]);
                }
                k = k + 1;
            }
        }
        if all_eq {
            proof {
                assert(spec_match_at(hay@, needle@, at as int));
            }
            return true;
        }
        at = at + 1;
    }
    false
}

/// The character for a single decimal digit.
pub open spec fn spec_digit_char(d: int) -> char {
    if d == 0 {
        '0'
    } else if d == 1 {
        '1'
    } else if d == 2 {
        '2'
    } else if d == 3 {
        '3'
    } else if d == 4 {
        '4'
    } else if d == 5 {
        '5'
    } else if d == 6 {
        '6'
    } else if d == 7 {
        '7'
    } else if d == 8 {
        '8'
    } else {
        '9'
    }
}

/// The decimal representation of a non-negative integer, most significant
/// digit first, with no leading zeros (except for the number zero itself).
pub open spec fn spec_dec_nat(n: nat) -> Seq<char>
    decreases n,
{
    if n < 10 {
        seq![spec_digit_char(n as int)]
    } else {
        spec_dec_nat(n / 10).push(spec_digit_char((n % 10) as int))
    }
}

/// The decimal representation of a signed integer: a leading `-` for
/// negative values, then the digits of the absolute value.
pub open spec fn spec_dec_int(n: int) -> Seq<char> {
    if n >= 0 {
        spec_dec_nat(n as nat)
    } else {
        seq!['-'].add(spec_dec_nat((-n) as nat))
    }
}

fn digit_str(d: u64) -> (s: &'static str)
    requires
        d < 10,
    ensures
        s@ == seq![spec_digit_char(d as int)],
{
    proof {
        reveal_strlit("0");
        reveal_strlit("1");
        reveal_strlit("2");
        reveal_strlit("3");
        reveal_strlit("4");
        reveal_strlit("5");
        reveal_strlit("6");
        reveal_strlit("7");
        reveal_strlit("8");
        reveal_strlit("9");
    }
    let s: &'static str = if d == 0 {
        "0"
    } else if d == 1 {
        "1"
    } else if d == 2 {
        "2"
    } else if d == 3 {
        "3"
    } else if d == 4 {
        "4"
    } else if d == 5 {
        "5"
    } else if d == 6 {
        "6"
    } else if d == 7 {
        "7"
    } else if d == 8 {
        "8"
    } else {
        "9"
    };
    proof {
        assert(s@ =~= seq![spec_digit_char(d as int)]);
    }
    s
}

/// Whether two strings hold the same characters.
pub fn str_eq(a: &str, b: &str) -> (r: bool)
    ensures
        r == (a@ == b@),
{
    let an = a.unicode_len();
    let bn = b.unicode_len();
    if an != bn {
        return false;
    }
    let mut i: usize = 0;
    while i < an
        invariant
            an == a@.len(),
            bn == b@.len(),
            an == bn,
            i <= an,
            forall|j: int| 0 <= j < i ==> a@[j] == b@[j],
        decreases an - i,
    {
        if a.get_char(i) != b.get_char(i) {
            return false;
        }
        i = i + 1;
    }
    proof {
        assert(a@ =~= b@);
    }
    true
}

/// Renders an unsigned integer in decimal.
pub fn u64_to_string(n: u64) -> (s: String)
    ensures
        s@ == spec_dec_nat(n as nat),
    decreases n,
{
    if n < 10 {
        let s = String::from_str(digit_str(n));
        s
    } else {
        let mut s = u64_to_string(n / 10);
        s.append(digit_str(n % 10));
        proof {
            assert(s@ =~= spec_dec_nat(n as nat));
        }
        s
    }
}

/// Renders a signed integer in decimal.
pub fn i64_to_string(n: i64) -> (s: String)
    ensures
        s@ == spec_dec_int(n as int),
{
    if n >= 0 {
        u64_to_string(n as u64)
    } else {
        let magnitude: u64 = if n == i64::MIN {
            9223372036854775808u64
        } else {
            (-n) as u64
        };
        let mut s = String::from_str("-");
        s.append(u64_to_string(magnitude).as_str());
        proof {
            reveal_strlit("-");
            assert(s@ =~= spec_dec_int(n as int));
        }
        s
    }
}

/// A decimal digit character.
pub open spec fn spec_is_digit(c: char) -> bool {
    48 <= c as int <= 57
}

/// The value of a decimal digit character.
pub open spec fn spec_digit_of(c: char) -> int {
    c as int - 48
}

/// Every character is a decimal digit.
pub open spec fn spec_all_digits(s: Seq<char>) -> bool {
    forall|i: int| 0 <= i < s.len() ==> spec_is_digit(#[trigger] s[i])
}

/// The value of a digit string, most significant digit first.
pub open spec fn spec_digits_val(s: Seq<char>) -> int
    decreases s.len(),
{
    if s.len() == 0 {
        0
    } else {
        spec_digits_val(s.drop_last()) * 10 + spec_digit_of(s.last())
    }
}

/// Ten to the given power.
pub open spec fn spec_pow10(n: nat) -> int
    decreases n,
{
    if n == 0 {
        1
    } else {
        10 * spec_pow10((n - 1) as nat)
    }
}

/// A canonical digit string: non-empty, digits only, and no leading zero
/// except for the single digit zero itself.
pub open spec fn spec_canonical_digits(s: Seq<char>) -> bool {
    &&& s.len() > 0
    &&& spec_all_digits(s)
    &&& (s.len() == 1 || s[0] != '0')
}

/// The signed integer a string denotes, if it is the canonical decimal
/// rendering of a value in the 64-bit signed range: an optional minus sign,
/// then canonical digits, with no minus on zero.
pub open spec fn spec_parse_i64(s: Seq<char>) -> Option<int> {
    if spec_canonical_digits(s) && spec_digits_val(s) <= 0x7fffffffffffffff {
        Some(spec_digits_val(s))
    } else if s.len() >= 2 && s[0] == '-' && spec_canonical_digits(s.skip(1)) && 1 <= spec_digits_val(
        s.skip(1),
    ) <= 0x8000000000000000 {
        Some(-spec_digits_val(s.skip(1)))
    } else {
        None
    }
}

/// A digit string's value is bounded by ten to its length.
pub proof fn lemma_digits_val_upper(s: Seq<char>)
    requires
        spec_all_digits(s),
    ensures
        0 <= spec_digits_val(s) < spec_pow10(s.len()),
    decreases s.len(),
{
    if s.len() > 0 {
        lemma_digits_val_upper(s.drop_last());
    }
}

/// A canonical digit string's value reaches ten to its length less one.
pub proof fn lemma_digits_val_lower(s: Seq<char>)
    requires
        spec_all_digits(s),
        s.len() >= 1,
        s[0] != '0',
    ensures
        spec_digits_val(s) >= spec_pow10((s.len() - 1) as nat),
    decreases s.len(),
{
    if s.len() == 1 {
        assert(s.drop_last().len() == 0);
        assert(spec_digits_val(s.drop_last()) == 0);
        assert(spec_digits_val(s) == spec_digit_of(s[0]));
        assert(spec_digit_of(s[0]) >= 1);
        assert(spec_pow10(0) == 1);
    } else {
        let d = s.drop_last();
        assert(forall|i: int| 0 <= i < d.len() ==> #[trigger] d[i] == s[i]);
        lemma_digits_val_lower(d);
        lemma_pow10_pos(((s.len() - 2) as nat));
        assert(spec_is_digit(s[s.len() - 1]));
        assert(spec_digit_of(s.last()) >= 0);
        assert(spec_digits_val(s) == spec_digits_val(d) * 10 + spec_digit_of(s.last()));
        assert(spec_digits_val(d) * 10 >= spec_pow10((s.len() - 2) as nat) * 10);
        assert(spec_pow10((s.len() - 1) as nat) == 10 * spec_pow10((s.len() - 2) as nat));
    }
}

/// Ten to any power is positive.
pub proof fn lemma_pow10_pos(n: nat)
    ensures
        spec_pow10(n) >= 1,
    decreases n,
{
    if n > 0 {
        lemma_pow10_pos((n - 1) as nat);
    }
}

/// Ten to a power never shrinks as the power grows.
pub proof fn lemma_pow10_mono(a: nat, b: nat)
    requires
        a <= b,
    ensures
        spec_pow10(a) <= spec_pow10(b),
    decreases b,
{
    if a < b {
        lemma_pow10_mono(a, (b - 1) as nat);
        lemma_pow10_pos((b - 1) as nat);
    }
}

/// The rendering of a non-negative value is made of digits, denotes that
/// value, and carries no leading zero.
pub proof fn lemma_dec_nat_canonical(n: nat)
    ensures
        spec_all_digits(spec_dec_nat(n)),
        spec_dec_nat(n).len() >= 1,
        spec_digits_val(spec_dec_nat(n)) == n,
        n >= 1 ==> spec_dec_nat(n)[0] != '0',
        n == 0 ==> spec_dec_nat(n) =~= seq!['0'],
        spec_canonical_digits(spec_dec_nat(n)),
    decreases n,
{
    if n < 10 {
        let s = spec_dec_nat(n);
        assert(s == seq![spec_digit_char(n as int)]);
        assert(s.drop_last() =~= Seq::<char>::empty());
        assert(spec_digits_val(s.drop_last()) == 0);
        assert(s.last() == spec_digit_char(n as int));
        assert(spec_digit_of(spec_digit_char(n as int)) == n);
        assert(spec_digits_val(s) == n);
    } else {
        lemma_dec_nat_canonical(n / 10);
        let s = spec_dec_nat(n);
        let d = spec_dec_nat(n / 10);
        assert(s == d.push(spec_digit_char((n % 10) as int)));
        assert(s.drop_last() =~= d);
        assert(forall|i: int|
            0 <= i < s.len() ==> #[trigger] s[i] == if i < d.len() {
                d[i]
            } else {
                spec_digit_char((n % 10) as int)
            });
        assert(s.last() == spec_digit_char((n % 10) as int));
        assert(spec_digit_of(spec_digit_char((n % 10) as int)) == n % 10);
        assert(spec_digits_val(s) == spec_digits_val(s.drop_last()) * 10 + spec_digit_of(s.last()));
        assert(spec_digits_val(s.drop_last()) == spec_digits_val(d));
        vstd::arithmetic::div_mod::lemma_fundamental_div_mod(n as int, 10);
        assert(n == 10 * (n as int / 10) + n as int % 10);
        vstd::arithmetic::div_mod::lemma_div_non_zero(n as int, 10);
        assert(n / 10 >= 1);
    }
}

/// Parsing is the inverse of rendering: the canonical decimal text of any
/// 64-bit value parses back to exactly that value.
pub proof fn lemma_parse_inverts_render(v: int)
    requires
        -0x8000000000000000 <= v <= 0x7fffffffffffffff,
    ensures
        spec_parse_i64(spec_dec_int(v)) == Some(v),
{
    if v >= 0 {
        lemma_dec_nat_canonical(v as nat);
    } else {
        lemma_dec_nat_canonical((-v) as nat);
        let s = spec_dec_int(v);
        let d = spec_dec_nat((-v) as nat);
        assert(s == seq!['-'].add(d));
        assert(s.skip(1) =~= d);
        assert(s[0] == '-');
        assert(!spec_is_digit('-'));
        assert(!spec_canonical_digits(s));
    }
}

/// Parses the canonical decimal rendering of a 64-bit signed integer;
/// anything else — empty, stray characters, a leading zero, a lone or
/// misplaced minus, a value out of range — yields nothing.
pub fn parse_i64(s: &str) -> (r: Option<i64>)
    ensures
        match r {
            Some(v) => spec_parse_i64(s@) == Some(v as int),
            None => spec_parse_i64(s@) is None,
        },
{
    let n = s.unicode_len();
    if n == 0 {
        return None;
    }
    let neg = s.get_char(0) == '-';
    let start: usize = if neg { 1 } else { 0 };
    let ghost d = s@.skip(start as int);
    proof {
        if !neg {
            assert(d =~= s@);
        }
    }
    if n == start {
        // A lone minus sign.
        return None;
    }
    // Every remaining character must be a digit.
    let mut i: usize = start;
    while i < n
        invariant
            n == s@.len(),
            start <= i <= n,
            start == (if neg {
                1usize
            } else {
                0usize
            }),
            start < n,
            d == s@.skip(start as int),
            neg ==> s@[0] == '-',
            !neg ==> s@[0] != '-',
            forall|j: int| start <= j < i ==> spec_is_digit(#[trigger] s@[j]),
        decreases n - i,
    {
        let c = s.get_char(i) as u32;
        if c < 48 || c > 57 {
            proof {
                assert(!spec_is_digit(s@[i as int]));
                if neg {
                    assert(s@.skip(1)[i - 1] == s@[i as int]);
                    assert(!spec_all_digits(s@.skip(1)));
                } else {
                    assert(!spec_all_digits(s@));
                    assert(s@[0] != '-');
                }
            }
            return None;
        }
        i = i + 1;
    }
    proof {
        assert(forall|j: int| 0 <= j < d.len() ==> d[j] == s@[start + j]);
        assert(spec_all_digits(d));
        if neg {
            assert(s@.skip(1) == d);
        }
    }
    // No leading zero unless the value is the single digit zero.
    if n - start > 1 && s.get_char(start) as u32 == 48 {
        proof {
            assert(d[0] == '0');
            assert(!spec_canonical_digits(d));
            assert(s@[0] == d[0] || neg);
            if !neg {
                assert(s@.len() > 1 && s@[0] == '0');
            }
        }
        return None;
    }
    proof {
        assert(spec_canonical_digits(d));
    }
    // More than 19 digits always exceeds the 64-bit range.
    if n - start > 19 {
        proof {
            lemma_digits_val_lower(d);
            lemma_pow10_mono(19, (d.len() - 1) as nat);
            assert(spec_pow10(19) == 10000000000000000000) by {
                reveal_with_fuel(spec_pow10, 21);
            }
            if !neg {
                assert(spec_digits_val(s@) > 0x7fffffffffffffff);
                assert(s@[0] != '-');
            }
        }
        return None;
    }
    // Accumulate the value; at most 19 digits, so it fits a 64-bit word.
    let mut acc: u64 = 0;
    let mut k: usize = start;
    while k < n
        invariant
            n == s@.len(),
            start <= k <= n,
            start <= 1,
            start < n,
            d == s@.skip(start as int),
            spec_all_digits(d),
            n - start <= 19,
            acc == spec_digits_val(d.take(k - start as int)),
            forall|j: int| start <= j < n ==> spec_is_digit(#[trigger] s@[j]),
        decreases n - k,
    {
        let c = s.get_char(k) as u32;
        proof {
            let t = d.take(k - start as int);
            lemma_digits_val_upper(t);
            lemma_pow10_mono(t.len() as nat, 18);
            assert(spec_pow10(18) == 1000000000000000000) by {
                reveal_with_fuel(spec_pow10, 20);
            }
            assert(acc < 1000000000000000000);
            assert(d.take(k - start + 1).drop_last() =~= t);
            assert(d.take(k - start + 1).last() == s@[k as int]);
        }
        acc = acc * 10 + ((c - 48) as u64);
        k = k + 1;
    }
    proof {
        assert(d.take(n - start as int) =~= d);
    }
    if neg {
        if acc > 9223372036854775808u64 {
            return None;
        }
        if acc == 0 {
            proof {
                // "-0" is not canonical output and is rejected.
                assert(spec_parse_i64(s@) is None);
            }
            return None;
        }
        let v: i64 = if acc == 9223372036854775808u64 {
            i64::MIN
        } else {
            -(acc as i64)
        };
        proof {
            assert(s@[0] == '-');
            assert(!spec_canonical_digits(s@));
        }
        Some(v)
    } else {
        if acc > 9223372036854775807u64 {
            proof {
                assert(s@ == d);
            }
            return None;
        }
        proof {
            assert(s@ == d);
        }
        Some(acc as i64)
    }
}

/// A whitespace character for tokenisation.
pub open spec fn spec_is_space(c: char) -> bool {
    c == ' ' || c == '\t' || c == '\n' || c == '\r'
}

/// The whitespace-split tokens of a string, in order, with no empty tokens.
/// A leading non-space character either opens a token of its own or extends
/// the token that the rest of the string opens with.
pub open spec fn spec_split_words(s: Seq<char>) -> Seq<Seq<char>>
    decreases s.len(),
{
    if s.len() == 0 {
        Seq::empty()
    } else {
        let rest = spec_split_words(s.drop_first());
        if spec_is_space(s[0]) {
            rest
        } else if s.len() >= 2 && !spec_is_space(s[1]) {
            seq![seq![s[0]].add(rest[0])].add(rest.drop_first())
        } else {
            seq![seq![s[0]]].add(rest)
        }
    }
}

/// Dropping a leading space does not change the tokens.
proof fn lemma_split_skip_space(s: Seq<char>, i: int)
    requires
        0 <= i < s.len(),
        spec_is_space(s[i]),
    ensures
        spec_split_words(s.skip(i)) == spec_split_words(s.skip(i + 1)),
{
    assert(s.skip(i)[0] == s[i]);
    assert(s.skip(i).drop_first() =~= s.skip(i + 1));
}

/// A maximal run of non-spaces from `i` to `j` is the first token of the
/// suffix at `i`, and the remaining tokens are those of the suffix at `j`.
proof fn lemma_split_word_at(s: Seq<char>, i: int, j: int)
    requires
        0 <= i < j <= s.len(),
        forall|k: int| i <= k < j ==> !spec_is_space(#[trigger] s[k]),
        j == s.len() || spec_is_space(s[j]),
    ensures
        spec_split_words(s.skip(i)) == seq![s.subrange(i, j)].add(spec_split_words(s.skip(j))),
    decreases j - i,
{
    let t = s.skip(i);
    assert(t[0] == s[i]);
    if j == i + 1 {
        if j == s.len() {
            assert(t.len() == 1);
            assert(t.drop_first() =~= s.skip(j));
            assert(seq![t[0]] =~= s.subrange(i, j));
            assert(spec_split_words(t) =~= seq![s.subrange(i, j)].add(
                spec_split_words(s.skip(j)),
            ));
        } else {
            assert(t[1] == s[i + 1]);
            assert(spec_is_space(t[1]));
            assert(t.drop_first() =~= s.skip(j));
            assert(seq![t[0]] =~= s.subrange(i, j));
            assert(spec_split_words(t) =~= seq![s.subrange(i, j)].add(
                spec_split_words(s.skip(j)),
            ));
        }
    } else {
        lemma_split_word_at(s, i + 1, j);
        let rest = spec_split_words(s.skip(i + 1));
        assert(t.drop_first() =~= s.skip(i + 1));
        assert(t[1] == s[i + 1]);
        assert(!spec_is_space(t[1]));
        assert(rest == seq![s.subrange(i + 1, j)].add(spec_split_words(s.skip(j))));
        assert(rest[0] == s.subrange(i + 1, j));
        assert(rest.drop_first() =~= spec_split_words(s.skip(j)));
        assert(seq![t[0]].add(rest[0]) =~= s.subrange(i, j));
        assert(spec_split_words(t) =~= seq![s.subrange(i, j)].add(spec_split_words(s.skip(j))));
    }
}

/// The views of a sequence of strings.
pub open spec fn views_of(v: Seq<String>) -> Seq<Seq<char>> {
    v.map_values(|w: String| w@)
}

/// Splits a string into its whitespace-separated tokens.
pub fn split_words(s: &str) -> (out: Vec<String>)
    ensures
        views_of(out@) == spec_split_words(s@),
{
    let n = s.unicode_len();
    let mut out: Vec<String> = Vec::new();
    let mut i: usize = 0;
    proof {
        assert(s@.skip(0) =~= s@);
        assert(views_of(out@) =~= Seq::<Seq<char>>::empty());
    }
    while i < n
        invariant
            n == s@.len(),
            i <= n,
            views_of(out@).add(spec_split_words(s@.skip(i as int))) == spec_split_words(s@),
        decreases n - i,
    {
        let c = s.get_char(i);
        if is_space_char(c) {
            proof {
                lemma_split_skip_space(s@, i as int);
            }
            i = i + 1;
        } else {
            // Read the word that starts here.
            let word_start = i;
            let mut j: usize = i + 1;
            while j < n && !is_space_char_at(s, j)
                invariant
                    n == s@.len(),
                    i == word_start,
                    word_start < j <= n,
                    forall|k: int| word_start <= k < j ==> !spec_is_space(#[trigger] s@[k]),
                decreases n - j,
            {
                j = j + 1;
            }
            let w = String::from_str(s.substring_char(word_start, j));
            let ghost prev = views_of(out@);
            out.push(w);
            proof {
                lemma_split_word_at(s@, i as int, j as int);
                assert(w@ == s@.subrange(i as int, j as int));
                assert(views_of(out@) =~= prev.push(w@));
                assert(prev.push(w@).add(spec_split_words(s@.skip(j as int))) =~= prev.add(
                    seq![s@.subrange(i as int, j as int)].add(spec_split_words(s@.skip(j as int))),
                ));
            }
            i = j;
        }
    }
    proof {
        assert(s@.skip(n as int) =~= Seq::<char>::empty());
        assert(views_of(out@).add(Seq::<Seq<char>>::empty()) =~= views_of(out@));
    }
    out
}

fn is_space_char(c: char) -> (r: bool)
    ensures
        r == spec_is_space(c),
{
    c == ' ' || c == '\t' || c == '\n' || c == '\r'
}

fn is_space_char_at(s: &str, i: usize) -> (r: bool)
    requires
        i < s@.len(),
    ensures
        r == spec_is_space(s@[i as int]),
{
    is_space_char(s.get_char(i))
}

/// The pieces joined with the separator between neighbours.
pub open spec fn spec_join_with(ws: Seq<Seq<char>>, sep: Seq<char>) -> Seq<char>
    decreases ws.len(),
{
    if ws.len() == 0 {
        Seq::empty()
    } else if ws.len() == 1 {
        ws[0]
    } else {
        spec_join_with(ws.drop_last(), sep).add(sep).add(ws.last())
    }
}

/// The tokens joined back with single spaces.
pub open spec fn spec_join_space(ws: Seq<Seq<char>>) -> Seq<char> {
    spec_join_with(ws, " "@)
}

/// Joins strings with the separator between neighbours.
pub fn join_with(ws: &Vec<String>, sep: &str) -> (out: String)
    ensures
        out@ == spec_join_with(views_of(ws@), sep@),
{
    let mut out = String::new();
    let n = ws.len();
    let mut i: usize = 0;
    while i < n
        invariant
            n == ws@.len(),
            i <= n,
            out@ == spec_join_with(views_of(ws@).take(i as int), sep@),
        decreases n - i,
    {
        if i > 0 {
            out.append(sep);
        }
        out.append(ws[i].as_str());
        proof {
            let vs = views_of(ws@);
            assert(vs.take(i + 1).drop_last() =~= vs.take(i as int));
            assert(vs.take(i + 1).last() == ws@[i as int]@);
            if i == 0 {
                assert(out@ =~= spec_join_with(vs.take(1), sep@));
            }
        }
        i = i + 1;
    }
    proof {
        assert(views_of(ws@).take(n as int) =~= views_of(ws@));
    }
    out
}

/// Joins strings with single spaces between them.
pub fn join_space(ws: &Vec<String>) -> (out: String)
    ensures
        out@ == spec_join_space(views_of(ws@)),
{
    join_with(ws, " ")
}

} // verus!
