//! Text primitives over sequences of characters: prefixes, trimming,
//! searching and splitting, each proved against a short mathematical
//! statement.

use vstd::prelude::*;
use vstd::std_specs::iter::IteratorSpec;
use vstd::string::{StrSliceExecFns, StringExecFns};

verus! {

/// The characters that carry the Unicode property `White_Space`.
pub open spec fn is_whitespace(c: char) -> bool {
    let n = c as u32;
    ||| 0x09 <= n <= 0x0D
    ||| n == 0x20
    ||| n == 0x85
    ||| n == 0xA0
    ||| n == 0x1680
    ||| 0x2000 <= n <= 0x200A
    ||| n == 0x2028
    ||| n == 0x2029
    ||| n == 0x202F
    ||| n == 0x205F
    ||| n == 0x3000
}

/// A set of characters that trimming removes.
pub enum CharClass {
    /// The whitespace characters.
    Whitespace,
    /// One character.
    Only(char),
}

impl CharClass {
    /// Whether `c` belongs to the class.
    pub open spec fn has(self, c: char) -> bool {
        match self {
            CharClass::Whitespace => is_whitespace(c),
            CharClass::Only(x) => c == x,
        }
    }

    /// Whether `c` belongs to the class.
    pub fn includes(&self, c: char) -> (b: bool)
        ensures
            b == self.has(c),
    {
        match self {
            CharClass::Whitespace => char_is_whitespace(c),
            CharClass::Only(x) => c == *x,
        }
    }
}

/// How many characters at the start of `s` satisfy `f`.
pub open spec fn leading(s: Seq<char>, f: CharClass) -> nat
    decreases s.len(),
{
    if s.len() > 0 && f.has(s[0]) {
        1 + leading(s.drop_first(), f)
    } else {
        0
    }
}

/// How many characters at the end of `s` satisfy `f`.
pub open spec fn trailing(s: Seq<char>, f: CharClass) -> nat
    decreases s.len(),
{
    if s.len() > 0 && f.has(s.last()) {
        1 + trailing(s.drop_last(), f)
    } else {
        0
    }
}

/// `s` without the characters at either end that satisfy `f`.
pub open spec fn trim_by(s: Seq<char>, f: CharClass) -> Seq<char> {
    if leading(s, f) == s.len() {
        Seq::empty()
    } else {
        s.subrange(leading(s, f) as int, s.len() - trailing(s, f))
    }
}

/// `s` without leading and trailing whitespace.
pub open spec fn trimmed(s: Seq<char>) -> Seq<char> {
    trim_by(s, CharClass::Whitespace)
}

/// `s` without leading and trailing occurrences of `c`.
pub open spec fn trimmed_of(s: Seq<char>, c: char) -> Seq<char> {
    trim_by(s, CharClass::Only(c))
}

/// `p` is a prefix of `s`.
pub open spec fn starts_with(s: Seq<char>, p: Seq<char>) -> bool {
    p.len() <= s.len() && s.subrange(0, p.len() as int) == p
}

/// `p` occurs in `s` at position `i`.
pub open spec fn occurs_at(s: Seq<char>, p: Seq<char>, i: int) -> bool {
    0 <= i && i + p.len() <= s.len() && s.subrange(i, i + p.len()) == p
}

/// `p` occurs somewhere in `s`.
pub open spec fn contains(s: Seq<char>, p: Seq<char>) -> bool {
    exists|i: int| occurs_at(s, p, i)
}

/// The position of the first `c` in `s`, or the length of `s` where there is none.
pub open spec fn first_index_of(s: Seq<char>, c: char) -> nat
    decreases s.len(),
{
    if s.len() == 0 || s[0] == c {
        0
    } else {
        1 + first_index_of(s.drop_first(), c)
    }
}

/// The part of `s` before its first `c`; all of `s` where there is none.
pub open spec fn before_first(s: Seq<char>, c: char) -> Seq<char> {
    s.take(first_index_of(s, c) as int)
}

/// The pieces of `s` between occurrences of `c`, in order. There is always at
/// least one piece; a piece may be empty.
pub open spec fn split_on(s: Seq<char>, c: char) -> Seq<Seq<char>>
    decreases s.len(),
{
    let k = first_index_of(s, c);
    if k >= s.len() {
        seq![s]
    } else {
        seq![s.take(k as int)] + split_on(s.skip(k as int + 1), c)
    }
}

/// The leading characters of a class are of the class, and the character
/// behind them is not.

pub proof fn lemma_leading_bound(s: Seq<char>, f: CharClass)
    ensures
        leading(s, f) <= s.len(),
        forall|i: int| 0 <= i < leading(s, f) ==> f.has(#[trigger] s[i]),
        leading(s, f) < s.len() ==> !f.has(s[leading(s, f) as int]),
    decreases s.len(),
{
    if s.len() > 0 && f.has(s[0]) {
        let t = s.drop_first();
        lemma_leading_bound(t, f);
        assert forall|i: int| 0 <= i < leading(s, f) implies f.has(#[trigger] s[i]) by {
            if i > 0 {
                assert(s[i] == t[i - 1]);
            }
        }
        if leading(s, f) < s.len() {
            assert(s[leading(s, f) as int] == t[leading(t, f) as int]);
        }
    }
}

/// The trailing characters of a class are of the class, and the character
/// before them is not.

pub proof fn lemma_trailing_bound(s: Seq<char>, f: CharClass)
    ensures
        trailing(s, f) <= s.len(),
        forall|i: int| s.len() - trailing(s, f) <= i < s.len() ==> f.has(#[trigger] s[i]),
        trailing(s, f) < s.len() ==> !f.has(s[s.len() - trailing(s, f) - 1]),
    decreases s.len(),
{
    if s.len() > 0 && f.has(s.last()) {
        let t = s.drop_last();
        lemma_trailing_bound(t, f);
        assert forall|i: int| s.len() - trailing(s, f) <= i < s.len() implies f.has(
            #[trigger] s[i],
        ) by {
            if i < s.len() - 1 {
                assert(s[i] == t[i]);
            }
        }
        if trailing(s, f) < s.len() {
            assert(s[s.len() - trailing(s, f) - 1] == t[t.len() - trailing(t, f) - 1]);
        }
    }
}

/// A count of leading characters is pinned down by what it leaves behind.
pub proof fn lemma_leading_is(s: Seq<char>, f: CharClass, n: int)
    requires
        0 <= n <= s.len(),
        forall|i: int| 0 <= i < n ==> f.has(#[trigger] s[i]),
        n < s.len() ==> !f.has(s[n]),
    ensures
        leading(s, f) == n,
{
    lemma_leading_bound(s, f);
    let m = leading(s, f) as int;
    if m < n {
        assert(f.has(s[m]));
    } else if n < m {
        assert(f.has(s[n]));
    }
}

/// A count of trailing characters is pinned down by what it leaves behind.
pub proof fn lemma_trailing_is(s: Seq<char>, f: CharClass, n: int)
    requires
        0 <= n <= s.len(),
        forall|i: int| s.len() - n <= i < s.len() ==> f.has(#[trigger] s[i]),
        n < s.len() ==> !f.has(s[s.len() - n - 1]),
    ensures
        trailing(s, f) == n,
{
    lemma_trailing_bound(s, f);
    let m = trailing(s, f) as int;
    if m < n {
        assert(f.has(s[s.len() - m - 1]));
    } else if n < m {
        assert(f.has(s[s.len() - n - 1]));
    }
}

/// Collects the characters of a string slice.
pub fn chars_of(s: &str) -> (out: Vec<char>)
    ensures
        out@ == s@,
{
    broadcast use vstd::string::group_string_axioms;

    let mut out: Vec<char> = Vec::new();
    let mut it = s.chars();
    assert(it.remaining() == s@);
    loop
        invariant
            it.obeys_prophetic_iter_laws(),
            it.decrease() is Some,
            out@ + it.remaining() == s@,
        ensures
            out@ == s@,
        decreases it.decrease()->0,
    {
        let ghost before = it.remaining();
        let ghost prefix = out@;
        match it.next() {
            Some(c) => {
                out.push(c);
                assert(out@ + it.remaining() =~= prefix + before) by {
                    assert(before =~= seq![c] + before.drop_first());
                }
            },
            None => {
                assert(out@ + it.remaining() =~= out@);
                break ;
            },
        }
    }
    out
}

/// Whether `c` is a whitespace character.
pub fn char_is_whitespace(c: char) -> (b: bool)
    ensures
        b == is_whitespace(c),
{
    let n: u32 = c as u32;
    (0x09 <= n && n <= 0x0D) || n == 0x20 || n == 0x85 || n == 0xA0 || n == 0x1680 || (0x2000 <= n
        && n <= 0x200A) || n == 0x2028 || n == 0x2029 || n == 0x202F || n == 0x205F || n == 0x3000
}

/// Removes the characters of the class `f` from both ends of `s`.
pub fn trim_class<'a>(s: &'a str, f: &CharClass) -> (r: &'a str)
    ensures
        r@ == trim_by(s@, *f),
{
    let cs = chars_of(s);
    let mut a: usize = 0;
    while a < cs.len() && f.includes(cs[a])
        invariant
            a <= cs.len(),
            forall|i: int| 0 <= i < a ==> f.has(#[trigger] cs@[i]),
        decreases cs.len() - a,
    {
        a += 1;
    }
    proof {
        lemma_leading_is(cs@, *f, a as int);
    }
    if a == cs.len() {
        let r = s.substring_char(0, 0);
        assert(r@ =~= Seq::<char>::empty());
        return r;
    }
    let mut b: usize = cs.len();
    while b > 0 && f.includes(cs[b - 1])
        invariant
            b <= cs.len(),
            forall|i: int| b <= i < cs.len() ==> f.has(#[trigger] cs@[i]),
        decreases b,
    {
        b -= 1;
    }
    proof {
        lemma_trailing_is(cs@, *f, cs.len() - b);
        assert(a <= b) by {
            if b < a {
                assert(f.has(cs@[a as int]));
            }
        }
    }
    s.substring_char(a, b)
}

/// Removes leading and trailing whitespace.
pub fn trim(s: &str) -> (r: &str)
    ensures
        r@ == trimmed(s@),
{
    trim_class(s, &CharClass::Whitespace)
}

/// Removes leading and trailing occurrences of `c`.
pub fn trim_matches(s: &str, c: char) -> (r: &str)
    ensures
        r@ == trimmed_of(s@, c),
{
    trim_class(s, &CharClass::Only(c))
}

/// Whether two string slices hold the same characters.
pub fn same_text(a: &str, b: &str) -> (r: bool)
    ensures
        r == (a@ == b@),
{
    let x = chars_of(a);
    let y = chars_of(b);
    if x.len() != y.len() {
        return false;
    }
    let mut i: usize = 0;
    while i < x.len()
        invariant
            x@ == a@,
            y@ == b@,
            i <= x.len(),
            x.len() == y.len(),
            forall|j: int| 0 <= j < i ==> x@[j] == y@[j],
        decreases x.len() - i,
    {
        if x[i] != y[i] {
            return false;
        }
        i += 1;
    }
    assert(x@ =~= y@);
    true
}

/// Whether `p` occurs in `s` at position `i`, on collected characters.
fn matches_at(s: &Vec<char>, p: &Vec<char>, i: usize) -> (r: bool)
    requires
        i + p.len() <= s.len(),
    ensures
        r == occurs_at(s@, p@, i as int),
{
    let mut j: usize = 0;
    while j < p.len()
        invariant
            j <= p.len(),
            i + p.len() <= s.len(),
            forall|k: int| 0 <= k < j ==> s@[i + k] == p@[k],
        decreases p.len() - j,
    {
        if s[i + j] != p[j] {
            assert(s@.subrange(i as int, i + p.len())[j as int] != p@[j as int]);
            return false;
        }
        j += 1;
    }
    assert(s@.subrange(i as int, i + p.len()) =~= p@);
    true
}

/// Whether `s` begins with `p`.
pub fn has_prefix(s: &str, p: &str) -> (r: bool)
    ensures
        r == starts_with(s@, p@),
{
    let x = chars_of(s);
    let y = chars_of(p);
    if y.len() > x.len() {
        return false;
    }
    matches_at(&x, &y, 0)
}

/// The rest of `s` after the prefix `p`, where `s` begins with `p`.
pub fn strip_prefix<'a>(s: &'a str, p: &str) -> (r: Option<&'a str>)
    ensures
        r is Some == starts_with(s@, p@),
        r matches Some(t) ==> t@ == s@.skip(p@.len() as int),
{
    let x = chars_of(s);
    let y = chars_of(p);
    if y.len() > x.len() {
        return None;
    }
    if matches_at(&x, &y, 0) {
        let t = s.substring_char(y.len(), x.len());
        assert(t@ =~= s@.skip(p@.len() as int));
        Some(t)
    } else {
        None
    }
}

/// Whether `p` occurs somewhere in `s`.
pub fn includes(s: &str, p: &str) -> (r: bool)
    ensures
        r == contains(s@, p@),
{
    let x = chars_of(s);
    let y = chars_of(p);
    if y.len() > x.len() {
        assert(forall|i: int| !occurs_at(x@, y@, i));
        return false;
    }
    let last: usize = x.len() - y.len();
    let mut i: usize = 0;
    loop
        invariant
            x@ == s@,
            y@ == p@,
            i <= last,
            last == x.len() - y.len(),
            forall|k: int| 0 <= k < i ==> !occurs_at(x@, y@, k),
        decreases last - i,
    {
        if matches_at(&x, &y, i) {
            return true;
        }
        if i == last {
            assert(forall|k: int| !occurs_at(x@, y@, k));
            return false;
        }
        i += 1;
    }
}

/// The first position of a character holds the character, and no position
/// before it does.

pub proof fn lemma_first_index_of(s: Seq<char>, c: char)
    ensures
        first_index_of(s, c) <= s.len(),
        forall|i: int| 0 <= i < first_index_of(s, c) ==> #[trigger] s[i] != c,
        first_index_of(s, c) < s.len() ==> s[first_index_of(s, c) as int] == c,
    decreases s.len(),
{
    if s.len() > 0 && s[0] != c {
        let t = s.drop_first();
        lemma_first_index_of(t, c);
        assert forall|i: int| 0 <= i < first_index_of(s, c) implies #[trigger] s[i] != c by {
            if i > 0 {
                assert(s[i] == t[i - 1]);
            }
        }
        if first_index_of(s, c) < s.len() {
            assert(s[first_index_of(s, c) as int] == t[first_index_of(t, c) as int]);
        }
    }
}

/// The first position of a character is pinned down by what precedes it.
pub proof fn lemma_first_index_is(s: Seq<char>, c: char, n: int)
    requires
        0 <= n <= s.len(),
        forall|i: int| 0 <= i < n ==> #[trigger] s[i] != c,
        n < s.len() ==> s[n] == c,
    ensures
        first_index_of(s, c) == n,
{
    lemma_first_index_of(s, c);
    let m = first_index_of(s, c) as int;
    if m < n {
        assert(s[m] != c);
    } else if n < m {
        assert(s[n] != c);
    }
}

/// The position of the first `c` at or after `from`, on collected characters.
fn find_from(s: &Vec<char>, c: char, from: usize) -> (k: usize)
    requires
        from <= s.len(),
    ensures
        k == from + first_index_of(s@.skip(from as int), c),
        from <= k <= s.len(),
{
    let mut k: usize = from;
    while k < s.len() && s[k] != c
        invariant
            from <= k <= s.len(),
            forall|i: int| from <= i < k ==> s@[i] != c,
        decreases s.len() - k,
    {
        k += 1;
    }
    proof {
        let t = s@.skip(from as int);
        assert forall|i: int| 0 <= i < k - from implies #[trigger] t[i] != c by {
            assert(t[i] == s@[from + i]);
        }
        lemma_first_index_is(t, c, k - from);
    }
    k
}

/// The position of the first `c` in `s`, counted in characters; the length of
/// `s` where there is none.
pub fn find_char(s: &str, c: char) -> (k: usize)
    ensures
        k == first_index_of(s@, c),
        k <= s@.len(),
{
    let x = chars_of(s);
    assert(x@.skip(0) =~= x@);
    find_from(&x, c, 0)
}

/// The part of `s` before its first `c`; all of `s` where there is none.
pub fn until_char(s: &str, c: char) -> (r: &str)
    ensures
        r@ == before_first(s@, c),
{
    let k = find_char(s, c);
    s.substring_char(0, k)
}

/// The pieces of `s` between occurrences of `c`, in order.
pub fn split(s: &str, c: char) -> (parts: Vec<&str>)
    ensures
        parts.deep_view() == split_on(s@, c),
{
    let x = chars_of(s);
    let mut parts: Vec<&str> = Vec::new();
    let mut from: usize = 0;
    assert(s@.skip(0) =~= s@);
    assert(parts.deep_view() =~= Seq::<Seq<char>>::empty());
    assert(Seq::<Seq<char>>::empty() + split_on(s@, c) =~= split_on(s@, c));
    loop
        invariant_except_break
            split_on(s@, c) == parts.deep_view() + split_on(s@.skip(from as int), c),
        invariant
            x@ == s@,
            from <= x.len(),
        ensures
            parts.deep_view() == split_on(s@, c),
        decreases x.len() - from,
    {
        let ghost done = parts.deep_view();
        let ghost rest = s@.skip(from as int);
        let k = find_from(&x, c, from);
        let piece = s.substring_char(from, k);
        assert(piece@ =~= rest.take(k - from));
        parts.push(piece);
        assert(parts.deep_view() =~= done + seq![piece@]);
        if k >= x.len() {
            assert(rest.take(k - from) =~= rest);
            break ;
        }
        assert(rest.skip(k - from + 1) =~= s@.skip(k + 1));
        from = k + 1;
    }
    parts
}

/// The text that `str::to_lowercase` gives for `s`: its lower-case form by
/// the rules of Unicode, which look at more than one character at a time
/// and may change the number of characters.
pub uninterp spec fn lowercase_of(s: Seq<char>) -> Seq<char>;

/// Lower-cases `s` with `str::to_lowercase`. Trusted: the result is
/// `lowercase_of` of the characters of `s`.
#[verifier::external_body]
pub(crate) fn lowercase(s: &str) -> (r: String)
    ensures
        r@ == lowercase_of(s@),
{
    s.to_lowercase()
}

/// The lower-case hexadecimal digit for a value below sixteen.
pub open spec fn hex_digit(n: u8) -> char {
    if n == 0 {
        '0'
    } else if n == 1 {
        '1'
    } else if n == 2 {
        '2'
    } else if n == 3 {
        '3'
    } else if n == 4 {
        '4'
    } else if n == 5 {
        '5'
    } else if n == 6 {
        '6'
    } else if n == 7 {
        '7'
    } else if n == 8 {
        '8'
    } else if n == 9 {
        '9'
    } else if n == 10 {
        'a'
    } else if n == 11 {
        'b'
    } else if n == 12 {
        'c'
    } else if n == 13 {
        'd'
    } else if n == 14 {
        'e'
    } else {
        'f'
    }
}

/// The text of one lower-case hexadecimal digit.
pub(crate) fn hex_digit_text(n: u8) -> (t: &'static str)
    requires
        n < 16,
    ensures
        t@ == seq![hex_digit(n)],
{
    proof {
        reveal_strlit("0");
        reveal_strlit("1");
        reveal_strlit("2");
        reveal_strlit("3");
        reveal_strlit("4");
        reveal_strlit("5");
        reveal_strlit("6");
        reveal_strlit("7");
        reveal_strlit("8");
        reveal_strlit("9");
        reveal_strlit("a");
        reveal_strlit("b");
        reveal_strlit("c");
        reveal_strlit("d");
        reveal_strlit("e");
        reveal_strlit("f");
    }
    let t = if n == 0 {
        "0"
    } else if n == 1 {
        "1"
    } else if n == 2 {
        "2"
    } else if n == 3 {
        "3"
    } else if n == 4 {
        "4"
    } else if n == 5 {
        "5"
    } else if n == 6 {
        "6"
    } else if n == 7 {
        "7"
    } else if n == 8 {
        "8"
    } else if n == 9 {
        "9"
    } else if n == 10 {
        "a"
    } else if n == 11 {
        "b"
    } else if n == 12 {
        "c"
    } else if n == 13 {
        "d"
    } else if n == 14 {
        "e"
    } else {
        "f"
    };
    assert(t@ =~= seq![hex_digit(n)]);
    t
}

/// The decimal spelling of a number.
pub open spec fn decimal_of(n: nat) -> Seq<char>
    decreases n,
{
    if n < 10 {
        seq![hex_digit(n as u8)]
    } else {
        decimal_of(n / 10).push(hex_digit((n % 10) as u8))
    }
}

/// Spells a number in decimal digits.
pub fn decimal(n: u64) -> (text: String)
    ensures
        text@ == decimal_of(n as nat),
    decreases n,
{
    if n < 10 {
        String::from_str(hex_digit_text(n as u8))
    } else {
        let mut text = decimal(n / 10);
        text.append(hex_digit_text((n % 10) as u8));
        assert(text@ =~= decimal_of(n as nat));
        text
    }
}

} // verus!
