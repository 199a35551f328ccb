//! Text helpers shared by the record readers and the query planners:
//! decimal integer parsing as `str::parse` does it, text comparison,
//! and the normalisation of free-text search names.
use vstd::prelude::*;

verus! {

/// True of the characters `'0'` to `'9'`.
pub open spec fn is_digit_char(c: char) -> bool {
    '0' <= c && c <= '9'
}

/// The value of a decimal digit character.
pub open spec fn digit_value(c: char) -> int {
    (c as int) - ('0' as int)
}

/// Every character of `s` is a decimal digit.
pub open spec fn all_digits(s: Seq<char>) -> bool {
    forall|i: int| 0 <= i < s.len() ==> is_digit_char(#[trigger] s[i])
}

/// The value of a string of decimal digits, most significant first.
pub open spec fn digits_value(s: Seq<char>) -> int
    decreases s.len(),
{
    if s.len() == 0 {
        0
    } else {
        digits_value(s.drop_last()) * 10 + digit_value(s.last())
    }
}

/// What follows an optional leading `'+'`.
pub open spec fn unsigned_body(s: Seq<char>) -> Seq<char> {
    if s.len() > 0 && s[0] == '+' {
        s.drop_first()
    } else {
        s
    }
}

/// `<u64 as FromStr>::from_str`: an optional `'+'`, then one or more decimal
/// digits whose value fits in a `u64`.
pub open spec fn spec_parse_u64(s: Seq<char>) -> Option<u64> {
    let b = unsigned_body(s);
    if b.len() > 0 && all_digits(b) && digits_value(b) <= u64::MAX {
        Some(digits_value(b) as u64)
    } else {
        None
    }
}

/// `<i64 as FromStr>::from_str`: an optional sign, then one or more decimal
/// digits whose signed value fits in an `i64`.
pub open spec fn spec_parse_i64(s: Seq<char>) -> Option<i64> {
    if s.len() > 0 && s[0] == '-' {
        let b = s.drop_first();
        if b.len() > 0 && all_digits(b) && digits_value(b) <= 0x8000_0000_0000_0000 {
            Some((-digits_value(b)) as i64)
        } else {
            None
        }
    } else {
        let b = unsigned_body(s);
        if b.len() > 0 && all_digits(b) && digits_value(b) <= i64::MAX {
            Some(digits_value(b) as i64)
        } else {
            None
        }
    }
}

proof fn lemma_digits_nonneg(s: Seq<char>)
    requires
        all_digits(s),
    ensures
        digits_value(s) >= 0,
    decreases s.len(),
{
    if s.len() > 0 {
        assert(all_digits(s.drop_last())) by {
            assert forall|i: int| 0 <= i < s.drop_last().len() implies is_digit_char(
                #[trigger] s.drop_last()[i],
            ) by {
                assert(s.drop_last()[i] == s[i]);
            }
        }
        lemma_digits_nonneg(s.drop_last());
        assert(is_digit_char(s[s.len() - 1]));
    }
}

proof fn lemma_digits_prefix_le(s: Seq<char>, k: int)
    requires
        all_digits(s),
        0 <= k <= s.len(),
    ensures
        digits_value(s.take(k)) <= digits_value(s),
    decreases s.len(),
{
    if k == s.len() {
        assert(s.take(k) =~= s);
    } else {
        let d = s.drop_last();
        assert(all_digits(d)) by {
            assert forall|i: int| 0 <= i < d.len() implies is_digit_char(#[trigger] d[i]) by {
                assert(d[i] == s[i]);
            }
        }
        lemma_digits_prefix_le(d, k);
        assert(d.take(k) =~= s.take(k));
        lemma_digits_nonneg(d);
        assert(is_digit_char(s[s.len() - 1]));
    }
}

/// Parses the decimal digits of `s` from character `start` to the end.
fn parse_digits(s: &str, start: usize) -> (r: Option<u64>)
    requires
        start <= s@.len(),
    ensures
        ({
            let b = s@.subrange(start as int, s@.len() as int);
            match r {
                Some(v) => b.len() > 0 && all_digits(b) && digits_value(b) == v,
                None => !(b.len() > 0 && all_digits(b) && digits_value(b) <= u64::MAX),
            }
        }),
{
    let n = s.unicode_len();
    if start == n {
        return None;
    }
    let ghost b = s@.subrange(start as int, s@.len() as int);
    let mut acc: u64 = 0;
    let mut i: usize = start;
    while i < n
        invariant
            start <= i <= n,
            n == s@.len(),
            b == s@.subrange(start as int, s@.len() as int),
            all_digits(b.take(i - start)),
            acc == digits_value(b.take(i - start)),
        decreases n - i,
    {
        let c = s.get_char(i);
        assert(b[i - start] == c);
        if !is_ascii_digit(c) {
            assert(!all_digits(b));
            return None;
        }
        let d: u64 = ((c as u32) - ('0' as u32)) as u64;
        let ghost next = b.take(i - start + 1);
        assert(next.drop_last() =~= b.take(i - start));
        assert(next.last() == c);
        assert(all_digits(next)) by {
            assert forall|j: int| 0 <= j < next.len() implies is_digit_char(#[trigger] next[j]) by {
                if j < next.len() - 1 {
                    assert(next[j] == b.take(i - start)[j]);
                }
            }
        }
        assert(digits_value(next) == acc * 10 + d);
        let m = acc.checked_mul(10);
        match m {
            None => {
                proof {
                    if all_digits(b) {
                        lemma_digits_prefix_le(b, i - start + 1);
                    }
                }
                return None;
            },
            Some(m) => {
                match m.checked_add(d) {
                    None => {
                        proof {
                            if all_digits(b) {
                                lemma_digits_prefix_le(b, i - start + 1);
                            }
                        }
                        return None;
                    },
                    Some(v) => {
                        acc = v;
                    },
                }
            },
        }
        i = i + 1;
    }
    assert(b.take(n - start) =~= b);
    Some(acc)
}

/// `str::parse::<u64>()`, with the result as an `Option`.
pub fn parse_u64(s: &str) -> (r: Option<u64>)
    ensures
        r == spec_parse_u64(s@),
{
    let n = s.unicode_len();
    if n > 0 && s.get_char(0) == '+' {
        assert(s@.subrange(1, s@.len() as int) =~= s@.drop_first());
        parse_digits(s, 1)
    } else {
        assert(s@.subrange(0, s@.len() as int) =~= s@);
        parse_digits(s, 0)
    }
}

/// `str::parse::<i64>()`, with the result as an `Option`.
pub fn parse_i64(s: &str) -> (r: Option<i64>)
    ensures
        r == spec_parse_i64(s@),
{
    let n = s.unicode_len();
    if n > 0 && s.get_char(0) == '-' {
        assert(s@.subrange(1, s@.len() as int) =~= s@.drop_first());
        match parse_digits(s, 1) {
            None => None,
            Some(v) => {
                if v < 0x8000_0000_0000_0000u64 {
                    let w: i64 = v as i64;
                    Some(-w)
                } else if v == 0x8000_0000_0000_0000u64 {
                    Some(i64::MIN)
                } else {
                    None
                }
            },
        }
    } else {
        let start: usize = if n > 0 && s.get_char(0) == '+' {
            1
        } else {
            0
        };
        assert(s@.subrange(start as int, s@.len() as int) =~= unsigned_body(s@));
        match parse_digits(s, start) {
            None => None,
            Some(v) => {
                if v <= 0x7fff_ffff_ffff_ffffu64 {
                    Some(v as i64)
                } else {
                    None
                }
            },
        }
    }
}

/// `char::is_ascii_digit`: whether `c` is one of `'0'..='9'`.
pub fn is_ascii_digit(c: char) -> (r: bool)
    ensures
        r == is_digit_char(c),
{
    '0' <= c && c <= '9'
}

/// Whether two texts hold the same characters.
pub fn text_eq(a: &str, b: &str) -> (r: bool)
    ensures
        r == (a@ == b@),
{
    let n = a.unicode_len();
    if n != b.unicode_len() {
        return false;
    }
    let mut i: usize = 0;
    while i < n
        invariant
            i <= n,
            n == a@.len(),
            n == b@.len(),
            forall|j: int| 0 <= j < i ==> a@[j] == b@[j],
        decreases n - i,
    {
        if a.get_char(i) != b.get_char(i) {
            return false;
        }
        i = i + 1;
    }
    assert(a@ =~= b@);
    true
}

/// What `char::is_alphabetic` returns for a character: whether it has the
/// Unicode `Alphabetic` property.
pub uninterp spec fn char_is_alphabetic(c: char) -> bool;

/// Calls `char::is_alphabetic` (std). Claims that its result is the value of
/// `char_is_alphabetic` for that character, which depends on nothing else.
#[verifier::external_body]
fn is_alphabetic(c: char) -> (r: bool)
    ensures
        r == char_is_alphabetic(c),
{
    c.is_alphabetic()
}

/// What `str::to_uppercase` returns for a text: its Unicode upper-case mapping.
pub uninterp spec fn text_uppercase(s: Seq<char>) -> Seq<char>;

/// Calls `str::to_uppercase` (std). Claims that its result is the value of
/// `text_uppercase` for that text, which depends on nothing else.
#[verifier::external_body]
pub(crate) fn to_uppercase(s: &str) -> (r: String)
    ensures
        r@ == text_uppercase(s@),
{
    s.to_uppercase()
}

/// Calls `String::push` (std). Claims that the character is appended.
#[verifier::external_body]
pub(crate) fn push_char(s: &mut String, c: char)
    ensures
        final(s)@ == old(s)@.push(c),
{
    s.push(c)
}

/// The character that a search name keeps at a position: itself when it is an
/// ASCII digit or alphabetic, a space otherwise.
pub open spec fn search_char(c: char) -> char {
    if is_digit_char(c) || char_is_alphabetic(c) {
        c
    } else {
        ' '
    }
}

/// A search name with every character that is neither an ASCII digit nor
/// alphabetic replaced by a space.
pub open spec fn spec_clean_search_name(s: Seq<char>) -> Seq<char> {
    s.map_values(|c: char| search_char(c))
}

/// Replaces each character of `name` that is neither an ASCII digit nor
/// alphabetic by a space, so that punctuation cannot reach the full-text index.
pub fn clean_search_name(name: &str) -> (r: String)
    ensures
        r@ == spec_clean_search_name(name@),
        r@.len() == name@.len(),
        forall|i: int|
            0 <= i < name@.len() && (is_digit_char(name@[i]) || char_is_alphabetic(name@[i]))
                ==> #[trigger] r@[i] == name@[i],
        forall|i: int|
            0 <= i < name@.len() && !(is_digit_char(name@[i]) || char_is_alphabetic(name@[i]))
                ==> #[trigger] r@[i] == ' ',
{
    let n = name.unicode_len();
    let mut out = String::new();
    let mut i: usize = 0;
    while i < n
        invariant
            i <= n,
            n == name@.len(),
            out@ == spec_clean_search_name(name@.take(i as int)),
        decreases n - i,
    {
        let c = name.get_char(i);
        let keep = is_ascii_digit(c) || is_alphabetic(c);
        if keep {
            push_char(&mut out, c);
        } else {
            push_char(&mut out, ' ');
        }
        assert(spec_clean_search_name(name@.take(i + 1)) =~= spec_clean_search_name(
            name@.take(i as int),
        ).push(search_char(c)));
        i = i + 1;
    }
    assert(name@.take(n as int) =~= name@);
    out
}

/// A cleaned search name has the length of the name, and each of its
/// characters is an ASCII digit, an alphabetic character or a space; a
/// character that was already a digit or alphabetic is kept in place, and
/// every other character (punctuation, white space, symbols) becomes a space.
pub proof fn lemma_clean_search_name_shape(s: Seq<char>)
    ensures
        spec_clean_search_name(s).len() == s.len(),
        forall|i: int|
            0 <= i < s.len() ==> {
                let c = #[trigger] spec_clean_search_name(s)[i];
                &&& (is_digit_char(c) || char_is_alphabetic(c) || c == ' ')
                &&& (is_digit_char(s[i]) || char_is_alphabetic(s[i])) ==> c == s[i]
                &&& !(is_digit_char(s[i]) || char_is_alphabetic(s[i])) ==> c == ' '
            },
{
}

} // verus!
