//! Character-level text operations with exact specifications.
//!
//! Strings are modelled by their sequence of characters (`Seq<char>`). The
//! executable helpers work on a `Vec<char>` and on half-open index ranges into
//! it, so that nested operations (split, trim, strip a prefix) allocate
//! nothing until the final text is cut out of the string that was scanned.

use vstd::prelude::*;
use vstd::string::StringSliceAdditionalSpecFns;

verus! {

/// Whether `c` has the Unicode `White_Space` property.
pub open spec fn is_whitespace(c: char) -> bool {
    let u = c as u32;
    ||| 0x09 <= u <= 0x0d
    ||| u == 0x20
    ||| u == 0x85
    ||| u == 0xa0
    ||| u == 0x1680
    ||| 0x2000 <= u <= 0x200a
    ||| u == 0x2028
    ||| u == 0x2029
    ||| u == 0x202f
    ||| u == 0x205f
    ||| u == 0x3000
}

/// Whether `c` is one of `0` to `9`.
pub open spec fn is_ascii_digit(c: char) -> bool {
    '0' <= c <= '9'
}

/// A set of characters that a scan can test for.
#[derive(Clone, Copy, Debug)]
pub enum CharClass {
    /// Unicode white space.
    Whitespace,
    /// Exactly the given character.
    Is(char),
    /// Every character but the given one.
    Not(char),
}

impl CharClass {
    /// Whether `c` belongs to the class.
    pub open spec fn holds(self, c: char) -> bool {
        match self {
            CharClass::Whitespace => is_whitespace(c),
            CharClass::Is(x) => c == x,
            CharClass::Not(x) => c != x,
        }
    }

    /// Tests whether `c` belongs to the class.
    pub fn test(&self, c: char) -> (b: bool)
        ensures
            b == self.holds(c),
    {
        match self {
            CharClass::Whitespace => {
                let u: u32 = c as u32;
                (0x09 <= u && u <= 0x0d) || u == 0x20 || u == 0x85 || u == 0xa0 || u == 0x1680 || (
                0x2000 <= u && u <= 0x200a) || u == 0x2028 || u == 0x2029 || u == 0x202f || u
                    == 0x205f || u == 0x3000
            },
            CharClass::Is(x) => c == *x,
            CharClass::Not(x) => c != *x,
        }
    }
}

/// How many characters at the start of `s` belong to `class`.
pub open spec fn leading(s: Seq<char>, class: CharClass) -> nat
    decreases s.len(),
{
    if s.len() > 0 && class.holds(s[0]) {
        1 + leading(s.drop_first(), class)
    } else {
        0
    }
}

/// How many characters at the end of `s` belong to `class`.
pub open spec fn trailing(s: Seq<char>, class: CharClass) -> nat
    decreases s.len(),
{
    if s.len() > 0 && class.holds(s.last()) {
        1 + trailing(s.drop_last(), class)
    } else {
        0
    }
}

/// `s` without its longest prefix of characters in `class`.
pub open spec fn trim_start_matches(s: Seq<char>, class: CharClass) -> Seq<char> {
    s.skip(leading(s, class) as int)
}

/// `s` without its longest suffix of characters in `class`.
pub open spec fn trim_end_matches(s: Seq<char>, class: CharClass) -> Seq<char> {
    s.take(s.len() - trailing(s, class))
}

/// `s` without the characters of `class` at either end.
pub open spec fn trim_matches(s: Seq<char>, class: CharClass) -> Seq<char> {
    trim_end_matches(trim_start_matches(s, class), class)
}

/// `s` without white space at either end.
pub open spec fn trim(s: Seq<char>) -> Seq<char> {
    trim_matches(s, CharClass::Whitespace)
}

/// Index of the first occurrence of `c` in `s`.
pub open spec fn find(s: Seq<char>, c: char) -> Option<int> {
    let n = leading(s, CharClass::Not(c));
    if n < s.len() {
        Some(n as int)
    } else {
        None
    }
}

/// Index of the last occurrence of `c` in `s`.
pub open spec fn rfind(s: Seq<char>, c: char) -> Option<int> {
    let n = trailing(s, CharClass::Not(c));
    if n < s.len() {
        Some(s.len() - 1 - n)
    } else {
        None
    }
}

/// The part of `s` before the first `sep`, or all of `s` where there is none.
pub open spec fn first_segment(s: Seq<char>, sep: char) -> Seq<char> {
    s.take(leading(s, CharClass::Not(sep)) as int)
}

/// The characters of a string slice, in order.
pub fn to_chars(s: &str) -> (v: Vec<char>)
    ensures
        v@ == s@,
{
    let mut v: Vec<char> = Vec::new();
    let it = s.chars();
    for c in iter: it
        invariant
            iter.seq() == s@,
            v@ == s@.take(iter.index() as int),
    {
        v.push(c);
    }
    v
}

/// Moves the start of the range `from..to` of `v` past every leading
/// character that belongs to `class`.
pub fn skip_leading(v: &Vec<char>, from: usize, to: usize, class: CharClass) -> (r: usize)
    requires
        from <= to <= v.len(),
    ensures
        from <= r <= to,
        r - from == leading(v@.subrange(from as int, to as int), class),
        v@.subrange(r as int, to as int) == trim_start_matches(
            v@.subrange(from as int, to as int),
            class,
        ),
{
    let mut i: usize = from;
    while i < to && class.test(v[i])
        invariant
            from <= i <= to <= v.len(),
            leading(v@.subrange(from as int, to as int), class) == (i - from) + leading(
                v@.subrange(i as int, to as int),
                class,
            ),
        decreases to - i,
    {
        proof {
            let cur = v@.subrange(i as int, to as int);
            assert(cur[0] == v@[i as int]);
            assert(cur.drop_first() =~= v@.subrange(i + 1, to as int));
        }
        i = i + 1;
    }
    proof {
        let cur = v@.subrange(i as int, to as int);
        if i < to {
            assert(cur[0] == v@[i as int]);
        }
        assert(leading(cur, class) == 0);
        assert(v@.subrange(from as int, to as int).skip(i - from) =~= cur);
    }
    i
}

/// Moves the end of the range `from..to` of `v` before every trailing
/// character that belongs to `class`.
pub fn skip_trailing(v: &Vec<char>, from: usize, to: usize, class: CharClass) -> (r: usize)
    requires
        from <= to <= v.len(),
    ensures
        from <= r <= to,
        to - r == trailing(v@.subrange(from as int, to as int), class),
        v@.subrange(from as int, r as int) == trim_end_matches(
            v@.subrange(from as int, to as int),
            class,
        ),
{
    let mut i: usize = to;
    while i > from && class.test(v[i - 1])
        invariant
            from <= i <= to <= v.len(),
            trailing(v@.subrange(from as int, to as int), class) == (to - i) + trailing(
                v@.subrange(from as int, i as int),
                class,
            ),
        decreases i - from,
    {
        proof {
            let cur = v@.subrange(from as int, i as int);
            assert(cur.last() == v@[i - 1]);
            assert(cur.drop_last() =~= v@.subrange(from as int, i - 1));
        }
        i = i - 1;
    }
    proof {
        let cur = v@.subrange(from as int, i as int);
        if i > from {
            assert(cur.last() == v@[i - 1]);
        }
        assert(trailing(cur, class) == 0);
        assert(v@.subrange(from as int, to as int).take(i - from) =~= cur);
    }
    i
}

/// Narrows the range `from..to` of `v` until neither end belongs to `class`.
pub fn trim_range(v: &Vec<char>, from: usize, to: usize, class: CharClass) -> (r: (usize, usize))
    requires
        from <= to <= v.len(),
    ensures
        from <= r.0 <= r.1 <= to,
        v@.subrange(r.0 as int, r.1 as int) == trim_matches(
            v@.subrange(from as int, to as int),
            class,
        ),
{
    let start = skip_leading(v, from, to, class);
    let end = skip_trailing(v, start, to, class);
    (start, end)
}

/// The text of the range `from..to` of `v`, taken out of the string `s` that
/// `v` lists the characters of.
pub fn cut(s: &str, v: &Vec<char>, from: usize, to: usize) -> (out: String)
    requires
        v@ == s@,
        from <= to <= v.len(),
    ensures
        out@ == v@.subrange(from as int, to as int),
{
    s.substring_char(from, to).to_owned()
}

/// `s` without the characters of `class` at its end.
pub fn without_trailing(s: &str, class: CharClass) -> (out: String)
    ensures
        out@ == trim_end_matches(s@, class),
{
    let v = to_chars(s);
    proof {
        assert(v@.subrange(0, v.len() as int) =~= v@);
    }
    let end = skip_trailing(&v, 0, v.len(), class);
    cut(s, &v, 0, end)
}

/// Whether two string slices hold the same text.
pub fn str_eq(a: &str, b: &str) -> (same: bool)
    ensures
        same == (a@ == b@),
{
    let x = a.as_bytes();
    let y = b.as_bytes();
    proof {
        vstd::utf8::encode_utf8_decode_utf8(a@);
        vstd::utf8::encode_utf8_decode_utf8(b@);
    }
    if x.len() != y.len() {
        return false;
    }
    let mut i: usize = 0;
    while i < x.len()
        invariant
            i <= x.len(),
            x.len() == y.len(),
            x@ == a.spec_bytes(),
            y@ == b.spec_bytes(),
            forall|j: int| 0 <= j < i ==> x@[j] == y@[j],
        decreases x.len() - i,
    {
        if x[i] != y[i] {
            return false;
        }
        i = i + 1;
    }
    assert(x@ =~= y@);
    true
}

/// Whether the text of `v` begins with `prefix`.
pub fn starts_with(v: &Vec<char>, prefix: &str) -> (yes: bool)
    ensures
        yes == prefix@.is_prefix_of(v@),
{
    let p = to_chars(prefix);
    if p.len() > v.len() {
        return false;
    }
    let mut i: usize = 0;
    while i < p.len()
        invariant
            i <= p.len() <= v.len(),
            p@ == prefix@,
            forall|j: int| 0 <= j < i ==> p@[j] == v@[j],
        decreases p.len() - i,
    {
        if p[i] != v[i] {
            assert(v@.subrange(0, p@.len() as int)[i as int] == v@[i as int]);
            return false;
        }
        i = i + 1;
    }
    assert(p@ =~= v@.subrange(0, p@.len() as int));
    true
}

/// The character that stands for the digit `d`.
pub open spec fn digit_char(d: nat) -> char {
    if d == 0 {
        '0'
    } else if d == 1 {
        '1'
    } else if d == 2 {
        '2'
    } else if d == 3 {
        '3'
    } else if d == 4 {
        '4'
    } else if d == 5 {
        '5'
    } else if d == 6 {
        '6'
    } else if d == 7 {
        '7'
    } else if d == 8 {
        '8'
    } else {
        '9'
    }
}

/// The decimal notation of `n`, without sign or leading zeros.
pub open spec fn decimal(n: nat) -> Seq<char>
    decreases n,
{
    if n < 10 {
        seq![digit_char(n)]
    } else {
        decimal(n / 10).push(digit_char(n % 10))
    }
}

/// The one-character text of a decimal digit.
fn digit_text(d: u64) -> (s: &'static str)
    requires
        d < 10,
    ensures
        s@ == seq![digit_char(d as nat)],
{
    proof {
        reveal_strlit("0");
        reveal_strlit("1");
        reveal_strlit("2");
        reveal_strlit("3");
        reveal_strlit("4");
        reveal_strlit("5");
        reveal_strlit("6");
        reveal_strlit("7");
        reveal_strlit("8");
        reveal_strlit("9");
    }
    let s = if d == 0 {
        "0"
    } else if d == 1 {
        "1"
    } else if d == 2 {
        "2"
    } else if d == 3 {
        "3"
    } else if d == 4 {
        "4"
    } else if d == 5 {
        "5"
    } else if d == 6 {
        "6"
    } else if d == 7 {
        "7"
    } else if d == 8 {
        "8"
    } else {
        "9"
    };
    assert(s@ =~= seq![digit_char(d as nat)]);
    s
}

/// Writes `n` in decimal notation.
pub fn decimal_string(n: u64) -> (s: String)
    ensures
        s@ == decimal(n as nat),
{
    let mut digits: Vec<u64> = Vec::new();
    let mut rest: u64 = n;
    // `digits` collects the digits from the least significant one up.
    while rest >= 10
        invariant
            forall|j: int| 0 <= j < digits.len() ==> digits@[j] < 10,
            decimal(n as nat) == decimal(rest as nat) + Seq::new(
                digits.len() as nat,
                |j: int| digit_char(digits@[digits.len() - 1 - j] as nat),
            ),
        decreases rest,
    {
        let ghost before = Seq::new(
            digits.len() as nat,
            |j: int| digit_char(digits@[digits.len() - 1 - j] as nat),
        );
        let ghost old_digits = digits@;
        digits.push(rest % 10);
        proof {
            let after = Seq::new(
                digits.len() as nat,
                |j: int| digit_char(digits@[digits.len() - 1 - j] as nat),
            );
            assert(after =~= seq![digit_char((rest % 10) as nat)] + before);
            assert(decimal(rest as nat) == decimal((rest / 10) as nat).push(
                digit_char((rest % 10) as nat),
            ));
            assert(decimal(rest as nat) + before =~= decimal((rest / 10) as nat) + after);
        }
        rest = rest / 10;
    }
    let mut s = String::from_str(digit_text(rest));
    let mut i: usize = digits.len();
    while i > 0
        invariant
            i <= digits.len(),
            rest < 10,
            forall|j: int| 0 <= j < digits.len() ==> digits@[j] < 10,
            s@ == decimal(rest as nat) + Seq::new(
                (digits.len() - i) as nat,
                |j: int| digit_char(digits@[digits.len() - 1 - j] as nat),
            ),
        decreases i,
    {
        let ghost before = s@;
        i = i - 1;
        s.append(digit_text(digits[i]));
        assert(s@ =~= decimal(rest as nat) + Seq::new(
            (digits.len() - i) as nat,
            |j: int| digit_char(digits@[digits.len() - 1 - j] as nat),
        ));
    }
    assert(s@ =~= decimal(n as nat));
    s
}

/// The lower-case form of an ASCII capital; every other character is kept.
pub open spec fn ascii_lower_char(c: char) -> char {
    if 'A' <= c <= 'Z' {
        ((c as u8) + 32) as char
    } else {
        c
    }
}

/// A text with its ASCII capitals in lower case.
pub open spec fn ascii_lower(s: Seq<char>) -> Seq<char> {
    s.map_values(|c: char| ascii_lower_char(c))
}

/// Puts an ASCII capital in lower case and keeps every other character.
pub fn to_ascii_lower(c: char) -> (l: char)
    ensures
        l == ascii_lower_char(c),
{
    if 'A' <= c && c <= 'Z' {
        ((c as u8) + 32) as char
    } else {
        c
    }
}

/// Whether `name`, with its ASCII capitals in lower case, is `lower`.
pub fn eq_ignore_ascii_case(name: &str, lower: &str) -> (same: bool)
    ensures
        same == (ascii_lower(name@) == lower@),
{
    let n = to_chars(name);
    let l = to_chars(lower);
    if n.len() != l.len() {
        return false;
    }
    let mut i: usize = 0;
    while i < n.len()
        invariant
            i <= n.len(),
            n.len() == l.len(),
            n@ == name@,
            l@ == lower@,
            forall|j: int| 0 <= j < i ==> ascii_lower_char(n@[j]) == l@[j],
        decreases n.len() - i,
    {
        if to_ascii_lower(n[i]) != l[i] {
            assert(ascii_lower(name@)[i as int] == ascii_lower_char(n@[i as int]));
            return false;
        }
        i = i + 1;
    }
    assert(ascii_lower(name@) =~= lower@);
    true
}

} // verus!
