//! Character-level text handling: splitting, trimming, prefix stripping and decimal rendering.

use vstd::prelude::*;
use vstd::string::*;

verus! {

/// The characters with the Unicode `White_Space` property
pub open spec fn is_unicode_whitespace(c: char) -> bool {
    let u = c as u32;
    ||| 0x9 <= u <= 0xD
    ||| u == 0x20
    ||| u == 0x85
    ||| u == 0xA0
    ||| u == 0x1680
    ||| 0x2000 <= u <= 0x200A
    ||| u == 0x2028
    ||| u == 0x2029
    ||| u == 0x202F
    ||| u == 0x205F
    ||| u == 0x3000
}

/// `char::is_whitespace`: true exactly for the characters with the Unicode `White_Space`
/// property, as its documentation states.
#[verifier::external_body]
pub(crate) fn char_is_whitespace(c: char) -> (r: bool)
    ensures
        r == is_unicode_whitespace(c),
{
    c.is_whitespace()
}

/// `String::push`: appends one character.
#[verifier::external_body]
pub(crate) fn push_char(s: &mut String, c: char)
    ensures
        final(s)@ == old(s)@.push(c),
{
    s.push(c)
}

/// The Unicode lowercase mapping of a text
pub uninterp spec fn lowercase(s: Seq<char>) -> Seq<char>;

/// `str::to_lowercase`: the Unicode lowercase equivalent of the text. The mapping itself
/// is not written out here; the result is named by `lowercase`.
#[verifier::external_body]
pub(crate) fn str_to_lowercase(s: &str) -> (r: String)
    ensures
        r@ == lowercase(s@),
{
    s.to_lowercase()
}

/// Leading whitespace removed
pub open spec fn trim_start(s: Seq<char>) -> Seq<char>
    decreases s.len(),
{
    if s.len() > 0 && is_unicode_whitespace(s[0]) {
        trim_start(s.drop_first())
    } else {
        s
    }
}

/// Trailing whitespace removed
pub open spec fn trim_end(s: Seq<char>) -> Seq<char>
    decreases s.len(),
{
    if s.len() > 0 && is_unicode_whitespace(s.last()) {
        trim_end(s.drop_last())
    } else {
        s
    }
}

/// Leading and trailing whitespace removed (`str::trim`)
pub open spec fn trim(s: Seq<char>) -> Seq<char> {
    trim_end(trim_start(s))
}

/// The pieces of `s` between occurrences of `sep`, processed left to right with the
/// pieces found so far and the piece being built
pub open spec fn split_from(
    pieces: Seq<Seq<char>>,
    cur: Seq<char>,
    rest: Seq<char>,
    sep: char,
) -> Seq<Seq<char>>
    decreases rest.len(),
{
    if rest.len() == 0 {
        pieces.push(cur)
    } else if rest[0] == sep {
        split_from(pieces.push(cur), Seq::empty(), rest.drop_first(), sep)
    } else {
        split_from(pieces, cur.push(rest[0]), rest.drop_first(), sep)
    }
}

/// The pieces of `s` between occurrences of `sep` (`str::split` with a character pattern)
pub open spec fn split(s: Seq<char>, sep: char) -> Seq<Seq<char>> {
    split_from(Seq::empty(), Seq::empty(), s, sep)
}

/// `s` with every leading repetition of the non-empty `prefix` removed
/// (`str::trim_start_matches`)
pub open spec fn strip_prefix_repeated(s: Seq<char>, prefix: Seq<char>) -> Seq<char>
    decreases s.len(),
{
    if prefix.len() > 0 && prefix.len() <= s.len() && s.subrange(0, prefix.len() as int)
        == prefix {
        strip_prefix_repeated(s.subrange(prefix.len() as int, s.len() as int), prefix)
    } else {
        s
    }
}

/// The decimal digit character of `d < 10`
pub open spec fn digit_char(d: int) -> char {
    ((d + 48) as u32) as char
}

/// The decimal rendering of `n` without leading zeros
pub open spec fn decimal(n: nat) -> Seq<char>
    decreases n,
{
    if n < 10 {
        seq![digit_char(n as int)]
    } else {
        decimal(n / 10).push(digit_char((n % 10) as int))
    }
}

/// The characters of a text
pub fn chars_of(s: &str) -> (r: Vec<char>)
    ensures
        r@ == s@,
{
    let n = s.unicode_len();
    let mut r: Vec<char> = Vec::new();
    let mut i: usize = 0;
    while i < n
        invariant
            n == s@.len(),
            i <= n,
            r@ == s@.subrange(0, i as int),
        decreases n - i,
    {
        let c = s.get_char(i);
        r.push(c);
        i = i + 1;
        assert(r@ =~= s@.subrange(0, i as int));
    }
    assert(r@ =~= s@);
    r
}

/// Whether two texts are equal
pub fn text_eq(a: &str, b: &str) -> (r: bool)
    ensures
        r == (a@ == b@),
{
    let x = chars_of(a);
    let y = chars_of(b);
    crate::order::compare_text(x.as_slice(), y.as_slice()) == 0
}

/// A text made of the given characters
pub fn string_from_chars(cs: &[char]) -> (r: String)
    ensures
        r@ == cs@,
{
    let mut r = String::new();
    let mut i: usize = 0;
    while i < cs.len()
        invariant
            i <= cs@.len(),
            r@ == cs@.subrange(0, i as int),
        decreases cs@.len() - i,
    {
        push_char(&mut r, cs[i]);
        i = i + 1;
        assert(r@ =~= cs@.subrange(0, i as int));
    }
    assert(r@ =~= cs@);
    r
}

pub proof fn lemma_trim_start_skip(s: Seq<char>, i: int)
    requires
        0 <= i < s.len(),
        is_unicode_whitespace(s[i]),
    ensures
        trim_start(s.subrange(i, s.len() as int)) == trim_start(s.subrange(i + 1, s.len() as int)),
{
    let t = s.subrange(i, s.len() as int);
    assert(t.drop_first() =~= s.subrange(i + 1, s.len() as int));
}

pub proof fn lemma_trim_end_skip(s: Seq<char>, j: int)
    requires
        0 < j <= s.len(),
        is_unicode_whitespace(s[j - 1]),
    ensures
        trim_end(s.subrange(0, j)) == trim_end(s.subrange(0, j - 1)),
{
    let t = s.subrange(0, j);
    assert(t.drop_last() =~= s.subrange(0, j - 1));
}

/// Leading and trailing whitespace removed
pub fn trim_chars(s: &[char]) -> (r: Vec<char>)
    ensures
        r@ == trim(s@),
{
    let n = s.len();
    let mut i: usize = 0;
    assert(s@.subrange(0, n as int) =~= s@);
    while i < n && char_is_whitespace(s[i])
        invariant
            n == s@.len(),
            i <= n,
            trim_start(s@) == trim_start(s@.subrange(i as int, n as int)),
        decreases n - i,
    {
        proof {
            lemma_trim_start_skip(s@, i as int);
        }
        i = i + 1;
    }
    let ghost rest = s@.subrange(i as int, n as int);
    assert(trim_start(s@) == rest) by {
        assert(trim_start(s@) == trim_start(rest));
        if rest.len() > 0 {
            assert(rest[0] == s@[i as int]);
        }
    }
    let mut j: usize = n;
    assert(rest.subrange(0, (j - i) as int) =~= rest);
    while j > i && char_is_whitespace(s[j - 1])
        invariant
            i <= j <= n,
            n == s@.len(),
            rest == s@.subrange(i as int, n as int),
            trim_end(rest) == trim_end(rest.subrange(0, j - i)),
        decreases j,
    {
        proof {
            lemma_trim_end_skip(rest, (j - i) as int);
        }
        j = j - 1;
    }
    let mut r: Vec<char> = Vec::new();
    let mut k: usize = i;
    while k < j
        invariant
            i <= k <= j <= n,
            n == s@.len(),
            r@ == s@.subrange(i as int, k as int),
        decreases j - k,
    {
        r.push(s[k]);
        k = k + 1;
        assert(r@ =~= s@.subrange(i as int, k as int));
    }
    proof {
        let t = rest.subrange(0, j - i);
        assert(t =~= s@.subrange(i as int, j as int));
        if t.len() > 0 {
            assert(t.last() == s@[j - 1]);
        }
        assert(trim_end(t) == t);
    }
    r
}

/// The pieces of `s` between occurrences of `sep`
pub fn split_chars(s: &[char], sep: char) -> (r: Vec<Vec<char>>)
    ensures
        r@.len() == split(s@, sep).len(),
        forall|i: int| 0 <= i < r@.len() ==> #[trigger] r@[i]@ == split(s@, sep)[i],
{
    let mut pieces: Vec<Vec<char>> = Vec::new();
    let mut cur: Vec<char> = Vec::new();
    let mut i: usize = 0;
    assert(s@.subrange(0, s@.len() as int) =~= s@);
    assert(pieces@.map_values(|p: Vec<char>| p@) =~= Seq::<Seq<char>>::empty());
    while i < s.len()
        invariant
            i <= s@.len(),
            split_from(pieces@.map_values(|p: Vec<char>| p@), cur@, s@.subrange(i as int, s@.len() as int), sep)
                == split(s@, sep),
        decreases s@.len() - i,
    {
        let ghost rest = s@.subrange(i as int, s@.len() as int);
        let ghost pv = pieces@.map_values(|p: Vec<char>| p@);
        assert(rest.drop_first() =~= s@.subrange(i + 1, s@.len() as int));
        assert(rest[0] == s@[i as int]);
        if s[i] == sep {
            let mut done: Vec<char> = Vec::new();
            std::mem::swap(&mut done, &mut cur);
            pieces.push(done);
            assert(pieces@.map_values(|p: Vec<char>| p@) =~= pv.push(done@));
        } else {
            cur.push(s[i]);
        }
        i = i + 1;
    }
    let ghost pv = pieces@.map_values(|p: Vec<char>| p@);
    assert(s@.subrange(s@.len() as int, s@.len() as int) =~= Seq::<char>::empty());
    let ghost c = cur@;
    pieces.push(cur);
    assert(pieces@.map_values(|p: Vec<char>| p@) =~= pv.push(c));
    assert forall|i: int| 0 <= i < pieces@.len() implies #[trigger] pieces@[i]@ == split(s@, sep)[i] by {
        assert(pieces@.map_values(|p: Vec<char>| p@)[i] == pieces@[i]@);
    }
    pieces
}

/// `s` with every leading repetition of the non-empty `prefix` removed
pub fn strip_prefix_repeated_chars(s: &[char], prefix: &[char]) -> (r: Vec<char>)
    requires
        prefix@.len() > 0,
    ensures
        r@ == strip_prefix_repeated(s@, prefix@),
{
    let n = s.len();
    let p = prefix.len();
    let mut i: usize = 0;
    assert(s@.subrange(0, n as int) =~= s@);
    loop
        invariant
            n == s@.len(),
            p == prefix@.len(),
            p > 0,
            i <= n,
            strip_prefix_repeated(s@, prefix@) == strip_prefix_repeated(
                s@.subrange(i as int, n as int),
                prefix@,
            ),
        ensures
            i <= n,
            strip_prefix_repeated(s@, prefix@) == s@.subrange(i as int, n as int),
        decreases n - i,
    {
        let ghost rest = s@.subrange(i as int, n as int);
        if p > n - i {
            assert(strip_prefix_repeated(rest, prefix@) == rest);
            break;
        }
        let mut k: usize = 0;
        let mut same = true;
        while k < p
            invariant
                k <= p,
                p == prefix@.len(),
                i + p <= n,
                n == s@.len(),
                same == (forall|m: int| 0 <= m < k ==> s@[i + m] == prefix@[m]),
            decreases p - k,
        {
            if s[i + k] != prefix[k] {
                same = false;
            }
            k = k + 1;
        }
        if !same {
            proof {
                if rest.subrange(0, p as int) == prefix@ {
                    assert forall|m: int| 0 <= m < p implies s@[i + m] == prefix@[m] by {
                        assert(rest.subrange(0, p as int)[m] == s@[i + m]);
                    }
                }
                assert(strip_prefix_repeated(rest, prefix@) == rest);
            }
            break;
        }
        proof {
            assert(rest.subrange(0, p as int) =~= prefix@) by {
                assert forall|m: int| 0 <= m < p implies rest.subrange(0, p as int)[m] == prefix@[m] by {
                    assert(rest.subrange(0, p as int)[m] == s@[i + m]);
                }
            }
            assert(rest.subrange(p as int, rest.len() as int) =~= s@.subrange(i + p, n as int));
        }
        i = i + p;
    }
    let mut r: Vec<char> = Vec::new();
    let mut k: usize = i;
    while k < n
        invariant
            i <= k <= n,
            n == s@.len(),
            r@ == s@.subrange(i as int, k as int),
        decreases n - k,
    {
        r.push(s[k]);
        k = k + 1;
        assert(r@ =~= s@.subrange(i as int, k as int));
    }
    r
}

/// The decimal rendering of `n`
pub fn u64_to_decimal(n: u64) -> (r: String)
    ensures
        r@ == decimal(n as nat),
{
    let mut digits: Vec<char> = Vec::new();
    let mut m: u64 = n;
    assert(digits@.reverse() =~= Seq::<char>::empty());
    assert(decimal(n as nat) =~= decimal(m as nat) + digits@.reverse());
    // digits holds the rendering of the low part of n, least significant digit first
    while m >= 10
        invariant
            decimal(n as nat) == decimal(m as nat) + digits@.reverse(),
        decreases m,
    {
        let d = m % 10;
        let c = char_from_digit(d);
        proof {
            assert(decimal(m as nat) == decimal((m / 10) as nat).push(c));
            assert(digits@.push(c).reverse() =~= seq![c] + digits@.reverse());
            assert(decimal((m / 10) as nat).push(c) + digits@.reverse() =~= decimal((m / 10) as nat)
                + (seq![c] + digits@.reverse()));
        }
        digits.push(c);
        m = m / 10;
    }
    let c = char_from_digit(m);
    proof {
        assert(decimal(m as nat) == seq![c]);
        assert(digits@.push(c).reverse() =~= seq![c] + digits@.reverse());
    }
    digits.push(c);
    proof {
        assert(decimal(n as nat) =~= (digits@.reverse()));
    }
    let mut r = String::new();
    let mut k: usize = digits.len();
    while k > 0
        invariant
            k <= digits@.len(),
            r@ == digits@.reverse().subrange(0, (digits@.len() - k) as int),
        decreases k,
    {
        k = k - 1;
        push_char(&mut r, digits[k]);
        assert(r@ =~= digits@.reverse().subrange(0, (digits@.len() - k) as int));
    }
    assert(r@ =~= digits@.reverse());
    r
}

fn char_from_digit(d: u64) -> (c: char)
    requires
        d < 10,
    ensures
        c == digit_char(d as int),
{
    match d {
        0 => '0',
        1 => '1',
        2 => '2',
        3 => '3',
        4 => '4',
        5 => '5',
        6 => '6',
        7 => '7',
        8 => '8',
        _ => '9',
    }
}


/// Whether every character is an ASCII decimal digit
pub open spec fn all_digits(s: Seq<char>) -> bool {
    forall|i: int| 0 <= i < s.len() ==> '0' <= #[trigger] s[i] <= '9'
}

/// The number that a run of decimal digits stands for
pub open spec fn digits_value(s: Seq<char>) -> int
    decreases s.len(),
{
    if s.len() == 0 {
        0
    } else {
        digits_value(s.drop_last()) * 10 + (s.last() as int - '0' as int)
    }
}

/// What `str::parse::<u64>` accepts: an optional `+`, then one or more decimal digits whose
/// value fits in 64 bits
pub open spec fn parse_u64_text(s: Seq<char>) -> Option<u64> {
    let d = if s.len() > 0 && s[0] == '+' {
        s.drop_first()
    } else {
        s
    };
    if d.len() > 0 && all_digits(d) && digits_value(d) <= u64::MAX {
        Some(digits_value(d) as u64)
    } else {
        None
    }
}

/// Parses an unsigned 64-bit decimal number
pub fn parse_u64(s: &str) -> (r: Option<u64>)
    ensures
        r == parse_u64_text(s@),
{
    let cs = chars_of(s);
    let n = cs.len();
    let start: usize = if n > 0 && cs[0] == '+' {
        1
    } else {
        0
    };
    let ghost d = cs@.subrange(start as int, n as int);
    assert(d =~= (if s@.len() > 0 && s@[0] == '+' {
        s@.drop_first()
    } else {
        s@
    }));
    if start == n {
        return None;
    }
    let mut acc: Option<u64> = Some(0);
    let mut i: usize = start;
    assert(cs@.subrange(start as int, start as int) =~= Seq::<char>::empty());
    while i < n
        invariant
            start <= i <= n,
            n == cs@.len(),
            d == cs@.subrange(start as int, n as int),
            d == (if s@.len() > 0 && s@[0] == '+' {
                s@.drop_first()
            } else {
                s@
            }),
            d.len() > 0,
            all_digits(cs@.subrange(start as int, i as int)),
            match acc {
                Some(v) => v == digits_value(cs@.subrange(start as int, i as int)),
                None => digits_value(cs@.subrange(start as int, i as int)) > u64::MAX,
            },
        decreases n - i,
    {
        let c = cs[i];
        if c < '0' || c > '9' {
            assert(d[i - start] == c);
            assert(!all_digits(d));
            return None;
        }
        let digit: u64 = (c as u32 - '0' as u32) as u64;
        let ghost prefix = cs@.subrange(start as int, i as int);
        let ghost next = cs@.subrange(start as int, i + 1);
        assert(next.drop_last() =~= prefix);
        assert(next.last() == c);
        assert(digits_value(next) == digits_value(prefix) * 10 + digit);
        acc = match acc {
            Some(v) => match v.checked_mul(10) {
                Some(w) => w.checked_add(digit),
                None => None,
            },
            None => None,
        };
        i = i + 1;
        assert(all_digits(cs@.subrange(start as int, i as int)));
    }
    acc
}


/// The uppercase hexadecimal digit character of `d < 16`
pub open spec fn hex_digit_char(d: int) -> char {
    if d < 10 {
        digit_char(d)
    } else {
        ((d - 10 + 65) as u32) as char
    }
}

/// The uppercase hexadecimal rendering of `n` without leading zeros
pub open spec fn hex_upper(n: nat) -> Seq<char>
    decreases n,
{
    if n < 16 {
        seq![hex_digit_char(n as int)]
    } else {
        hex_upper(n / 16).push(hex_digit_char((n % 16) as int))
    }
}

fn char_from_hex_digit(d: u64) -> (c: char)
    requires
        d < 16,
    ensures
        c == hex_digit_char(d as int),
{
    match d {
        0 => '0',
        1 => '1',
        2 => '2',
        3 => '3',
        4 => '4',
        5 => '5',
        6 => '6',
        7 => '7',
        8 => '8',
        9 => '9',
        10 => 'A',
        11 => 'B',
        12 => 'C',
        13 => 'D',
        14 => 'E',
        _ => 'F',
    }
}

/// The uppercase hexadecimal rendering of `n`
pub fn u64_to_hex_upper(n: u64) -> (r: String)
    ensures
        r@ == hex_upper(n as nat),
{
    let mut digits: Vec<char> = Vec::new();
    let mut m: u64 = n;
    assert(digits@.reverse() =~= Seq::<char>::empty());
    assert(hex_upper(n as nat) =~= hex_upper(m as nat) + digits@.reverse());
    while m >= 16
        invariant
            hex_upper(n as nat) == hex_upper(m as nat) + digits@.reverse(),
        decreases m,
    {
        let c = char_from_hex_digit(m % 16);
        proof {
            assert(hex_upper(m as nat) == hex_upper((m / 16) as nat).push(c));
            assert(digits@.push(c).reverse() =~= seq![c] + digits@.reverse());
            assert(hex_upper((m / 16) as nat).push(c) + digits@.reverse() =~= hex_upper(
                (m / 16) as nat,
            ) + (seq![c] + digits@.reverse()));
        }
        digits.push(c);
        m = m / 16;
    }
    let c = char_from_hex_digit(m);
    proof {
        assert(hex_upper(m as nat) == seq![c]);
        assert(digits@.push(c).reverse() =~= seq![c] + digits@.reverse());
    }
    digits.push(c);
    assert(hex_upper(n as nat) =~= digits@.reverse());
    let mut r = String::new();
    let mut k: usize = digits.len();
    while k > 0
        invariant
            k <= digits@.len(),
            r@ == digits@.reverse().subrange(0, (digits@.len() - k) as int),
        decreases k,
    {
        k = k - 1;
        push_char(&mut r, digits[k]);
        assert(r@ =~= digits@.reverse().subrange(0, (digits@.len() - k) as int));
    }
    assert(r@ =~= digits@.reverse());
    r
}

} // verus!
