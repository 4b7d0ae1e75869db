//! Character and string helpers with exact specifications: ASCII
//! classification, decimal rendering and parsing, equality and padding.

use vstd::prelude::*;

verus! {

/// An ASCII letter or digit.
pub open spec fn is_ascii_alnum(c: char) -> bool {
    ('a' <= c && c <= 'z') || ('A' <= c && c <= 'Z') || ('0' <= c && c <= '9')
}

/// An ASCII decimal digit.
pub open spec fn is_digit(c: char) -> bool {
    '0' <= c && c <= '9'
}

/// The ASCII lower-case form of `c`; every other character is unchanged.
pub open spec fn ascii_lower(c: char) -> char {
    if 'A' <= c && c <= 'Z' {
        ((c as u32) + 32) as char
    } else {
        c
    }
}

/// A character with the Unicode `White_Space` property, the set that
/// `char::is_whitespace` and `str::trim` use.
pub open spec fn is_unicode_space(c: char) -> bool {
    let u = c as u32;
    ||| 0x09 <= u <= 0x0d
    ||| u == 0x20
    ||| u == 0x85
    ||| u == 0xa0
    ||| u == 0x1680
    ||| 0x2000 <= u <= 0x200a
    ||| u == 0x2028
    ||| u == 0x2029
    ||| u == 0x202f
    ||| u == 0x205f
    ||| u == 0x3000
}

/// Every character of `s` is white space (so `s.trim()` is empty).
pub open spec fn is_blank(s: Seq<char>) -> bool {
    forall|i: int| 0 <= i < s.len() ==> is_unicode_space(#[trigger] s[i])
}

/// The character of the decimal digit `d` (`d < 10`).
pub open spec fn digit_char(d: nat) -> char {
    ((d + 48) as u8) as char
}

/// The value of the decimal digit character `c`.
pub open spec fn digit_value(c: char) -> nat {
    ((c as u32) - 48) as nat
}

/// The decimal rendering of `n`, without sign or leading zeros.
pub open spec fn decimal(n: nat) -> Seq<char>
    decreases n,
{
    if n < 10 {
        seq![digit_char(n)]
    } else {
        decimal(n / 10).push(digit_char(n % 10))
    }
}

/// Every character of `s` is a decimal digit.
pub open spec fn all_digits(s: Seq<char>) -> bool {
    forall|i: int| 0 <= i < s.len() ==> is_digit(#[trigger] s[i])
}

/// The number that the digit string `s` denotes.
pub open spec fn digits_value(s: Seq<char>) -> nat
    decreases s.len(),
{
    if s.len() == 0 {
        0
    } else {
        digits_value(s.drop_last()) * 10 + digit_value(s.last())
    }
}

/// `s` with one leading `+` removed, if it has one.
pub open spec fn unsigned_digits(s: Seq<char>) -> Seq<char> {
    if s.len() > 0 && s[0] == '+' {
        s.drop_first()
    } else {
        s
    }
}

/// What `str::parse::<u32>` returns: an optional `+`, then one or more
/// decimal digits whose value fits in a `u32`.
pub open spec fn spec_parse_u32(s: Seq<char>) -> Option<u32> {
    let d = unsigned_digits(s);
    if d.len() > 0 && all_digits(d) && digits_value(d) <= u32::MAX {
        Some(digits_value(d) as u32)
    } else {
        None
    }
}

/// `s` padded on the right with spaces to at least `width` characters,
/// as the `{:width}` format of a string does.
pub open spec fn pad_right(s: Seq<char>, width: nat) -> Seq<char> {
    if s.len() >= width {
        s
    } else {
        s + Seq::new((width - s.len()) as nat, |i: int| ' ')
    }
}

/// Appends one character to a `String` (`String::push`).
#[verifier::external_body]
pub(crate) fn push_char(s: &mut String, c: char)
    ensures
        final(s)@ == old(s)@.push(c),
{
    s.push(c);
}

/// Whether `c` is an ASCII letter or digit.
pub fn ascii_alnum(c: char) -> (b: bool)
    ensures
        b == is_ascii_alnum(c),
{
    ('a' <= c && c <= 'z') || ('A' <= c && c <= 'Z') || ('0' <= c && c <= '9')
}

/// The ASCII lower-case form of `c`.
pub fn to_ascii_lower(c: char) -> (r: char)
    ensures
        r == ascii_lower(c),
{
    if 'A' <= c && c <= 'Z' {
        let u: u8 = (c as u8) + 32;
        u as char
    } else {
        c
    }
}

/// Whether `c` has the Unicode `White_Space` property.
pub fn unicode_space(c: char) -> (b: bool)
    ensures
        b == is_unicode_space(c),
{
    let u = c as u32;
    (0x09 <= u && u <= 0x0d) || u == 0x20 || u == 0x85 || u == 0xa0 || u == 0x1680 || (0x2000
        <= u && u <= 0x200a) || u == 0x2028 || u == 0x2029 || u == 0x202f || u == 0x205f || u
        == 0x3000
}

/// Whether `s` is empty once white space is trimmed from both ends.
pub fn blank(s: &str) -> (b: bool)
    ensures
        b == is_blank(s@),
{
    let mut all = true;
    for c in it: s.chars()
        invariant
            it.seq() == s@,
            all == (forall|j: int| 0 <= j < it.index() ==> is_unicode_space(#[trigger] s@[j])),
    {
        proof {
            assert(c == s@[it.index()]);
        }
        if !unicode_space(c) {
            all = false;
        }
    }
    all
}

/// Whether two strings hold the same characters.
pub fn str_eq(a: &str, b: &str) -> (r: bool)
    ensures
        r == (a@ == b@),
{
    let n = a.unicode_len();
    let m = b.unicode_len();
    if n != m {
        return false;
    }
    let mut i: usize = 0;
    while i < n
        invariant
            n == a@.len(),
            m == b@.len(),
            n == m,
            i <= n,
            forall|j: int| 0 <= j < i ==> a@[j] == b@[j],
        decreases n - i,
    {
        if a.get_char(i) != b.get_char(i) {
            return false;
        }
        i = i + 1;
    }
    assert(a@ =~= b@);
    true
}

/// A `String` holding the characters of `s`.
pub fn owned(s: &str) -> (r: String)
    ensures
        r@ == s@,
{
    String::from_str(s)
}

/// The decimal character of `d`.
fn digit(d: u64) -> (c: char)
    requires
        d < 10,
    ensures
        c == digit_char(d as nat),
{
    let b: u8 = (d as u8) + 48;
    b as char
}

/// The decimal rendering of `n`, as `n.to_string()` gives it.
pub fn decimal_string(n: u64) -> (s: String)
    ensures
        s@ == decimal(n as nat),
    decreases n,
{
    if n < 10 {
        let mut s = String::new();
        push_char(&mut s, digit(n));
        s
    } else {
        let mut s = decimal_string(n / 10);
        push_char(&mut s, digit(n % 10));
        s
    }
}

proof fn lemma_unsigned_digits_step(s: Seq<char>, i: int)
    requires
        0 <= i < s.len(),
        !(i == 0 && s[0] == '+'),
    ensures
        unsigned_digits(s.take(i + 1)) == unsigned_digits(s.take(i)).push(s[i]),
{
    if i == 0 {
        assert(s.take(1) =~= seq![s[0]]);
        assert(s.take(0) =~= Seq::<char>::empty());
        assert(unsigned_digits(s.take(0)) =~= Seq::<char>::empty());
        assert(unsigned_digits(s.take(1)) =~= s.take(1));
    } else if s[0] == '+' {
        assert(s.take(i + 1).drop_first() =~= s.take(i).drop_first().push(s[i]));
    } else {
        assert(s.take(i + 1) =~= s.take(i).push(s[i]));
    }
}

/// Parses a decimal `u32` as `str::parse::<u32>` does: an optional `+`
/// followed by one or more ASCII digits whose value fits.
pub fn parse_u32(s: &str) -> (r: Option<u32>)
    ensures
        r == spec_parse_u32(s@),
{
    let mut acc: u64 = 0;
    let mut over = false;
    let mut bad = false;
    let mut any = false;
    let mut first = true;
    for c in it: s.chars()
        invariant
            it.seq() == s@,
            first == (it.index() == 0),
            0 <= it.index() <= s@.len(),
            ({
                let d = unsigned_digits(s@.take(it.index()));
                &&& any == (d.len() > 0)
                &&& bad == !all_digits(d)
                &&& (!bad && !over) ==> acc == digits_value(d) && acc <= u32::MAX
                &&& (!bad && over) ==> digits_value(d) > u32::MAX
            }),
    {
        let ghost i = it.index();
        let ghost d0 = unsigned_digits(s@.take(i));
        proof {
            assert(c == s@[i]);
        }
        let at_start = first;
        first = false;
        if at_start && c == '+' {
            proof {
                assert(s@.take(1).drop_first() =~= Seq::<char>::empty());
                assert(s@.take(0) =~= Seq::<char>::empty());
            }
        } else {
            proof {
                lemma_unsigned_digits_step(s@, i);
            }
            let ghost d1 = d0.push(c);
            assert(d1.drop_last() =~= d0);
            any = true;
            if '0' <= c && c <= '9' {
                if !bad && !over {
                    let v: u64 = acc * 10 + ((c as u32) - 48) as u64;
                    if v > 0xffff_ffff {
                        over = true;
                    } else {
                        acc = v;
                    }
                }
            } else {
                bad = true;
                assert(!is_digit(d1[d1.len() - 1]));
            }
            assert(bad == !all_digits(d1)) by {
                if !bad {
                    assert forall|j: int| 0 <= j < d1.len() implies is_digit(#[trigger] d1[j]) by {
                        if j < d0.len() {
                            assert(d1[j] == d0[j]);
                        }
                    }
                } else if all_digits(d1) {
                    assert forall|j: int| 0 <= j < d0.len() implies is_digit(#[trigger] d0[j]) by {
                        assert(d1[j] == d0[j]);
                    }
                }
            }
        }
    }
    proof {
        assert(s@.take(s@.len() as int) =~= s@);
    }
    if bad || !any || over {
        None
    } else {
        Some(acc as u32)
    }
}

/// `s` padded on the right with spaces to at least `width` characters.
pub fn pad_to(s: &str, width: usize) -> (r: String)
    ensures
        r@ == pad_right(s@, width as nat),
{
    let n = s.unicode_len();
    let mut r = String::from_str(s);
    let mut k: usize = n;
    while k < width
        invariant
            n == s@.len(),
            n <= k <= width || (n > width && k == n),
            k < width ==> n <= k,
            n <= k,
            r@ == s@ + Seq::new((k - n) as nat, |i: int| ' '),
        decreases width - k,
    {
        push_char(&mut r, ' ');
        k = k + 1;
        assert(r@ =~= s@ + Seq::new((k - n) as nat, |i: int| ' '));
    }
    if n >= width {
        assert(r@ =~= s@);
    } else {
        assert(k == width);
    }
    r
}

} // verus!
