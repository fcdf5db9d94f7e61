//! Small verified tools for working with text as sequences of characters.

use vstd::prelude::*;

verus! {

/// The texts of the strings in `v`, in order.
pub open spec fn texts(v: Seq<String>) -> Seq<Seq<char>> {
    Seq::new(v.len(), |i: int| v[i]@)
}

/// Whether the string `s` reads `literal`.
pub fn is_text(s: &String, literal: &str) -> (r: bool)
    ensures
        r == (s@ == literal@),
{
    let other = literal.to_owned();
    *s == other
}

/// The characters of `s`, in order, as a vector.
pub fn chars_of(s: &str) -> (v: Vec<char>)
    ensures
        v@ == s@,
{
    let mut v: Vec<char> = Vec::new();
    for c in it: s.chars()
        invariant
            v@ == it.seq().take(it.index() as int),
    {
        v.push(c);
    }
    v
}

/// The string made of the characters `v[from..to]`.
pub fn string_of(v: &Vec<char>, from: usize, to: usize) -> (s: String)
    requires
        from <= to <= v.len(),
    ensures
        s@ == v@.subrange(from as int, to as int),
{
    let mut s = String::new();
    let mut i: usize = from;
    while i < to
        invariant
            from <= i <= to <= v.len(),
            s@ == v@.subrange(from as int, i as int),
        decreases to - i,
    {
        s.push(v[i]);
        i = i + 1;
        assert(v@.subrange(from as int, i as int) == v@.subrange(from as int, i - 1).push(v@[i - 1]));
    }
    s
}

/// Whether `c` is white space: one of the characters that separate words
/// and lines, among them the blank, the tab and the line feed.
pub open spec fn is_space(c: char) -> bool {
    let n = c as u32;
    ||| 0x09 <= n <= 0x0D
    ||| n == 0x20
    ||| n == 0x85
    ||| n == 0xA0
    ||| n == 0x1680
    ||| 0x2000 <= n <= 0x200A
    ||| n == 0x2028
    ||| n == 0x2029
    ||| n == 0x202F
    ||| n == 0x205F
    ||| n == 0x3000
}

/// Tests a character for white space.
pub fn char_is_space(c: char) -> (b: bool)
    ensures
        b == is_space(c),
{
    let n: u32 = c as u32;
    (0x09 <= n && n <= 0x0D) || n == 0x20 || n == 0x85 || n == 0xA0 || n == 0x1680 || (0x2000 <= n
        && n <= 0x200A) || n == 0x2028 || n == 0x2029 || n == 0x202F || n == 0x205F || n == 0x3000
}

/// The character for a single decimal digit.
pub open spec fn digit(d: nat) -> char {
    if d == 0 {
        '0'
    } else if d == 1 {
        '1'
    } else if d == 2 {
        '2'
    } else if d == 3 {
        '3'
    } else if d == 4 {
        '4'
    } else if d == 5 {
        '5'
    } else if d == 6 {
        '6'
    } else if d == 7 {
        '7'
    } else if d == 8 {
        '8'
    } else {
        '9'
    }
}

/// The decimal numeral of `n`, without leading zeros.
pub open spec fn decimal(n: nat) -> Seq<char>
    decreases n,
{
    if n < 10 {
        seq![digit(n)]
    } else {
        decimal(n / 10).push(digit(n % 10))
    }
}

fn digit_char(d: usize) -> (c: char)
    requires
        d < 10,
    ensures
        c == digit(d as nat),
{
    if d == 0 {
        '0'
    } else if d == 1 {
        '1'
    } else if d == 2 {
        '2'
    } else if d == 3 {
        '3'
    } else if d == 4 {
        '4'
    } else if d == 5 {
        '5'
    } else if d == 6 {
        '6'
    } else if d == 7 {
        '7'
    } else if d == 8 {
        '8'
    } else {
        '9'
    }
}

/// Appends the decimal numeral of `n` to `out`.
pub fn push_decimal(out: &mut String, n: usize)
    ensures
        final(out)@ == old(out)@ + decimal(n as nat),
    decreases n,
{
    if n >= 10 {
        push_decimal(out, n / 10);
    }
    out.push(digit_char(n % 10));
    assert(out@ =~= old(out)@ + decimal(n as nat));
}

/// The decimal numeral of `n`, without leading zeros.
pub fn decimal_string(n: usize) -> (s: String)
    ensures
        s@ == decimal(n as nat),
{
    let mut s = String::new();
    push_decimal(&mut s, n);
    assert(s@ =~= decimal(n as nat));
    s
}

/// The first place in `from..to` that holds no white space, or `to`.
pub open spec fn skip_spaces(s: Seq<char>, from: int, to: int) -> int
    decreases to - from,
{
    if from < 0 || from >= to || to > s.len() {
        to
    } else if is_space(s[from]) {
        skip_spaces(s, from + 1, to)
    } else {
        from
    }
}

/// The place in `from..=to` behind the last character of `from..to` that is no
/// white space, or `from`.
pub open spec fn trim_back(s: Seq<char>, from: int, to: int) -> int
    decreases to - from,
{
    if from < 0 || to <= from || to > s.len() {
        from
    } else if is_space(s[to - 1]) {
        trim_back(s, from, to - 1)
    } else {
        to
    }
}

/// `skip_spaces` passes over white space only, and stops at the first
/// character that is none.
pub proof fn lemma_skip_spaces(s: Seq<char>, from: int, to: int)
    requires
        0 <= from <= to <= s.len(),
    ensures
        from <= skip_spaces(s, from, to) <= to,
        forall|k: int| from <= k < skip_spaces(s, from, to) ==> is_space(#[trigger] s[k]),
        skip_spaces(s, from, to) < to ==> !is_space(s[skip_spaces(s, from, to)]),
    decreases to - from,
{
    if from < to && is_space(s[from]) {
        lemma_skip_spaces(s, from + 1, to);
    }
}

/// `trim_back` passes over white space only, and stops behind the last
/// character that is none.
pub proof fn lemma_trim_back(s: Seq<char>, from: int, to: int)
    requires
        0 <= from <= to <= s.len(),
    ensures
        from <= trim_back(s, from, to) <= to,
        forall|k: int| trim_back(s, from, to) <= k < to ==> is_space(#[trigger] s[k]),
        trim_back(s, from, to) > from ==> !is_space(s[trim_back(s, from, to) - 1]),
    decreases to - from,
{
    if from < to && is_space(s[to - 1]) {
        lemma_trim_back(s, from, to - 1);
    }
}

/// The first place in `from..to` that holds no white space, or `to`.
pub(crate) fn skip_white(chars: &Vec<char>, from: usize, to: usize) -> (r: usize)
    requires
        from <= to <= chars.len(),
    ensures
        r == skip_spaces(chars@, from as int, to as int),
        from <= r <= to,
{
    proof {
        lemma_skip_spaces(chars@, from as int, to as int);
    }
    let mut k: usize = from;
    while k < to
        invariant
            from <= k <= to <= chars.len(),
            skip_spaces(chars@, from as int, to as int) == skip_spaces(chars@, k as int, to as int),
        decreases to - k,
    {
        if !char_is_space(chars[k]) {
            return k;
        }
        k = k + 1;
    }
    to
}

/// The place behind the last character of `from..to` that is no white
/// space, or `from`.
pub(crate) fn trim_white(chars: &Vec<char>, from: usize, to: usize) -> (r: usize)
    requires
        from <= to <= chars.len(),
    ensures
        r == trim_back(chars@, from as int, to as int),
        from <= r <= to,
{
    proof {
        lemma_trim_back(chars@, from as int, to as int);
    }
    let mut k: usize = to;
    while k > from
        invariant
            from <= k <= to <= chars.len(),
            trim_back(chars@, from as int, to as int) == trim_back(chars@, from as int, k as int),
        decreases k - from,
    {
        if !char_is_space(chars[k - 1]) {
            return k;
        }
        k = k - 1;
    }
    from
}

} // verus!
