//! Character-level helpers shared by the renderer and the dispatcher.
//!
//! Text is measured and compared in Unicode scalar values: the view of a
//! string is a `Seq<char>`, and every length here counts its elements.
//! Keywords are matched without regard to ASCII case.

use vstd::prelude::*;

verus! {

/// Whether `c` separates tokens: the code points with the Unicode
/// `White_Space` property.
pub open spec fn is_space(c: char) -> bool {
    let n = c as u32;
    ||| 0x09 <= n <= 0x0D
    ||| n == 0x20
    ||| n == 0x85
    ||| n == 0xA0
    ||| n == 0x1680
    ||| 0x2000 <= n <= 0x200A
    ||| n == 0x2028
    ||| n == 0x2029
    ||| n == 0x202F
    ||| n == 0x205F
    ||| n == 0x3000
}

/// Tests a character for the `White_Space` property.
pub fn is_space_char(c: char) -> (r: bool)
    ensures
        r == is_space(c),
{
    let n: u32 = c as u32;
    (0x09 <= n && n <= 0x0D) || n == 0x20 || n == 0x85 || n == 0xA0 || n == 0x1680 || (0x2000 <= n
        && n <= 0x200A) || n == 0x2028 || n == 0x2029 || n == 0x202F || n == 0x205F || n == 0x3000
}

/// `c` with an ASCII capital letter replaced by its small letter.
pub open spec fn lower(c: char) -> char {
    if 0x41 <= c as u32 <= 0x5A {
        ((c as u32 + 0x20) as u8) as char
    } else {
        c
    }
}

/// Maps an ASCII capital letter to its small letter and leaves every other
/// character alone.
pub fn to_lower(c: char) -> (r: char)
    ensures
        r == lower(c),
{
    let n: u32 = c as u32;
    if 0x41 <= n && n <= 0x5A {
        let b: u8 = (n + 0x20) as u8;
        b as char
    } else {
        c
    }
}

/// Two texts are equal once ASCII case is set aside.
pub open spec fn eq_ignore_case(a: Seq<char>, b: Seq<char>) -> bool {
    &&& a.len() == b.len()
    &&& forall|i: int| 0 <= i < a.len() ==> lower(#[trigger] a[i]) == lower(b[i])
}

/// `s` begins with `p`, ASCII case set aside.
pub open spec fn starts_with_ignore_case(s: Seq<char>, p: Seq<char>) -> bool {
    &&& p.len() <= s.len()
    &&& eq_ignore_case(s.take(p.len() as int), p)
}

/// `s` ends with `p`, compared exactly.
pub open spec fn ends_with(s: Seq<char>, p: Seq<char>) -> bool {
    &&& p.len() <= s.len()
    &&& s.skip(s.len() - p.len()) == p
}

/// `s` without its leading white space.
pub open spec fn trim_start(s: Seq<char>) -> Seq<char>
    decreases s.len(),
{
    if s.len() > 0 && is_space(s[0]) {
        trim_start(s.skip(1))
    } else {
        s
    }
}

/// The length of the longest prefix of `s` that holds no white space.
pub open spec fn word_len(s: Seq<char>) -> nat
    decreases s.len(),
{
    if s.len() > 0 && !is_space(s[0]) {
        1 + word_len(s.skip(1))
    } else {
        0
    }
}

/// A word never runs past the end of its text.
pub proof fn lemma_word_len_bound(s: Seq<char>)
    ensures
        word_len(s) <= s.len(),
    decreases s.len(),
{
    if s.len() > 0 && !is_space(s[0]) {
        lemma_word_len_bound(s.skip(1));
    }
}

/// The maximal runs of characters other than white space, in order: what is
/// left of `s` when it is cut at every stretch of white space.
pub open spec fn tokens(s: Seq<char>) -> Seq<Seq<char>>
    decreases s.len(),
{
    if s.len() == 0 {
        Seq::empty()
    } else if is_space(s[0]) {
        tokens(s.skip(1))
    } else {
        proof {
            lemma_word_len_bound(s);
        }
        let n = word_len(s);
        seq![s.take(n as int)] + tokens(s.skip(n as int))
    }
}

/// The views of a vector of strings, element by element.
pub open spec fn texts(v: Seq<String>) -> Seq<Seq<char>> {
    Seq::new(v.len(), |i: int| v[i]@)
}

/// The characters of `s`, in order.
pub fn chars_of(s: &str) -> (v: Vec<char>)
    ensures
        v@ == s@,
{
    let mut v: Vec<char> = Vec::new();
    for c in it: s.chars()
        invariant
            v@ == it.seq().take(it.index() as int),
            it.seq() == s@,
    {
        v.push(c);
    }
    v
}

/// Appends one character to a string.
///
/// Trusted: `String::push` of std, which puts `c` behind the characters that
/// the string already holds and changes none of them.
#[verifier::external_body]
pub(crate) fn push_char(s: &mut String, c: char)
    ensures
        final(s)@ == old(s)@.push(c),
{
    s.push(c);
}

/// The characters `v[from..to]` as a string.
pub(crate) fn string_of(v: &Vec<char>, from: usize, to: usize) -> (s: String)
    requires
        from <= to <= v.len(),
    ensures
        s@ == v@.subrange(from as int, to as int),
{
    let mut s = String::new();
    let mut i: usize = from;
    while i < to
        invariant
            from <= i <= to <= v.len(),
            s@ == v@.subrange(from as int, i as int),
        decreases to - i,
    {
        push_char(&mut s, v[i]);
        i += 1;
    }
    s
}

/// Whether the characters of `s` from index `from` on begin with `p`, ASCII
/// case set aside.
pub(crate) fn has_prefix_ignore_case(s: &Vec<char>, from: usize, p: &Vec<char>) -> (r: bool)
    requires
        from <= s.len(),
    ensures
        r == starts_with_ignore_case(s@.skip(from as int), p@),
{
    if p.len() > s.len() - from {
        return false;
    }
    let ghost rest = s@.skip(from as int).take(p.len() as int);
    let mut i: usize = 0;
    while i < p.len()
        invariant
            from <= s.len(),
            p.len() <= s.len() - from,
            i <= p.len(),
            rest == s@.skip(from as int).take(p.len() as int),
            forall|k: int| 0 <= k < i ==> lower(#[trigger] rest[k]) == lower(p@[k]),
        decreases p.len() - i,
    {
        if to_lower(s[from + i]) != to_lower(p[i]) {
            assert(lower(rest[i as int]) != lower(p@[i as int]));
            return false;
        }
        i += 1;
    }
    true
}

/// Whether `a` and `b` are the same text, ASCII case set aside.
pub fn same_ignore_case(a: &Vec<char>, b: &Vec<char>) -> (r: bool)
    ensures
        r == eq_ignore_case(a@, b@),
{
    if a.len() != b.len() {
        return false;
    }
    let r = has_prefix_ignore_case(a, 0, b);
    assert(a@.skip(0).take(b.len() as int) == a@);
    r
}

/// Whether `s` ends with `p`, compared exactly.
pub(crate) fn has_suffix(s: &Vec<char>, p: &Vec<char>) -> (r: bool)
    ensures
        r == ends_with(s@, p@),
{
    if p.len() > s.len() {
        return false;
    }
    let off: usize = s.len() - p.len();
    let ghost tail = s@.skip(off as int);
    let mut i: usize = 0;
    while i < p.len()
        invariant
            p.len() <= s.len(),
            off == s.len() - p.len(),
            i <= p.len(),
            tail == s@.skip(off as int),
            forall|k: int| 0 <= k < i ==> #[trigger] tail[k] == p@[k],
        decreases p.len() - i,
    {
        if s[off + i] != p[i] {
            assert(tail[i as int] != p@[i as int]);
            return false;
        }
        i += 1;
    }
    assert(tail =~= p@);
    true
}

/// The index of the first character of `s` that is no white space, or the
/// length of `s` where there is none.
pub(crate) fn leading_spaces(s: &Vec<char>) -> (n: usize)
    ensures
        n <= s.len(),
        trim_start(s@) == s@.skip(n as int),
{
    let mut i: usize = 0;
    assert(s@.skip(0) == s@);
    while i < s.len() && is_space_char(s[i])
        invariant
            i <= s.len(),
            trim_start(s@) == trim_start(s@.skip(i as int)),
        decreases s.len() - i,
    {
        assert(s@.skip(i as int).skip(1) == s@.skip(i + 1));
        i += 1;
    }
    proof {
        if i == s.len() {
            assert(s@.skip(i as int).len() == 0);
        }
    }
    i
}

/// Cuts `s` at white space, as `split_whitespace` does.
pub fn split_tokens(s: &Vec<char>) -> (out: Vec<String>)
    ensures
        texts(out@) == tokens(s@),
{
    let mut out: Vec<String> = Vec::new();
    let mut i: usize = 0;
    assert(s@.skip(0) == s@);
    assert(texts(out@) + tokens(s@.skip(0)) == tokens(s@));
    while i < s.len()
        invariant
            i <= s.len(),
            texts(out@) + tokens(s@.skip(i as int)) == tokens(s@),
        decreases s.len() - i,
    {
        let ghost rest = s@.skip(i as int);
        if is_space_char(s[i]) {
            assert(rest.skip(1) == s@.skip(i + 1));
            i += 1;
        } else {
            let start: usize = i;
            while i < s.len() && !is_space_char(s[i])
                invariant
                    start <= i <= s.len(),
                    rest == s@.skip(start as int),
                    word_len(rest) == (i - start) + word_len(s@.skip(i as int)),
                decreases s.len() - i,
            {
                assert(s@.skip(i as int).skip(1) == s@.skip(i + 1));
                i += 1;
            }
            proof {
                if i == s.len() {
                    assert(s@.skip(i as int).len() == 0);
                }
                assert(word_len(rest) == i - start);
                assert(rest.take((i - start) as int) == s@.subrange(start as int, i as int));
                assert(rest.skip((i - start) as int) == s@.skip(i as int));
            }
            let ghost before = texts(out@);
            let word = string_of(s, start, i);
            out.push(word);
            assert(texts(out@) == before + seq![rest.take((i - start) as int)]);
            assert(tokens(rest) == seq![rest.take((i - start) as int)] + tokens(
                rest.skip((i - start) as int),
            ));
            assert(texts(out@) + tokens(s@.skip(i as int)) == before + tokens(rest));
        }
    }
    assert(tokens(s@.skip(i as int)) == Seq::<Seq<char>>::empty());
    assert(texts(out@) + Seq::<Seq<char>>::empty() == texts(out@));
    out
}

/// The character that writes the digit `d`.
pub open spec fn digit(d: nat) -> char
    recommends
        d < 10,
{
    ((0x30 + d) as u8) as char
}

/// The decimal digits of `n`, most significant first, without leading zeros.
pub open spec fn digits(n: nat) -> Seq<char>
    decreases n,
{
    if n < 10 {
        seq![digit(n)]
    } else {
        digits(n / 10).push(digit(n % 10))
    }
}

/// The base-10 text of `n`: a minus sign where `n` is negative, then its
/// digits.
pub open spec fn decimal(n: int) -> Seq<char> {
    if n < 0 {
        seq!['-'] + digits((-n) as nat)
    } else {
        digits(n as nat)
    }
}

/// Appends the decimal digits of `n` to `s`.
fn push_digits(s: &mut String, n: u64)
    ensures
        final(s)@ == old(s)@ + digits(n as nat),
    decreases n,
{
    if n >= 10 {
        push_digits(s, n / 10);
    }
    let d: u8 = (n % 10) as u8;
    let b: u8 = 0x30 + d;
    push_char(s, b as char);
    proof {
        if n >= 10 {
            assert(final(s)@ == old(s)@ + digits(n as nat));
        } else {
            assert(old(s)@.push(digit(n as nat)) == old(s)@ + digits(n as nat));
        }
    }
}

/// Writes a signed integer in base 10.
pub fn format_integer(n: i64) -> (s: String)
    ensures
        s@ == decimal(n as int),
{
    let mut s = String::new();
    if n < 0 {
        push_char(&mut s, '-');
        let m: u64 = ((-(n + 1)) as u64) + 1;
        push_digits(&mut s, m);
    } else {
        push_digits(&mut s, n as u64);
        assert(Seq::<char>::empty() + digits(n as nat) == digits(n as nat));
    }
    s
}

} // verus!
