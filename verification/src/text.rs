//! Character-level text primitives shared by every parser of the crate.
//!
//! All specifications are stated over `Seq<char>`, the view of `str` and `String`.
use vstd::prelude::*;
use vstd::std_specs::iter::IteratorSpec;

verus! {

/// The characters of `s`, in order.
pub fn chars_of(s: &str) -> (out: Vec<char>)
    ensures
        out@ == s@,
{
    let mut out: Vec<char> = Vec::new();
    let mut it = s.chars();
    let ghost all = s@;
    proof {
        vstd::string::axiom_spec_iter(s);
    }
    loop
        invariant
            all == s@,
            it.obeys_prophetic_iter_laws(),
            out@ + it.remaining() == all,
            it.decrease() is Some,
        decreases it.decrease()->0,
    {
        let ghost before = it;
        let next = it.next();
        proof {
            vstd::string::next_postcondition(&before, &it, next);
        }
        match next {
            Some(c) => {
                out.push(c);
                assert(out@ + it.remaining() =~= all);
            },
            None => {
                assert(out@ =~= all);
                return out;
            },
        }
    }
}

/// `String::push` appends the character to the end of the string, as its documentation says.
pub assume_specification[ String::push ](s: &mut String, c: char)
    ensures
        final(s)@ == old(s)@.push(c),
;

/// A `String` holding exactly the characters of `s`.
pub fn string_of(s: &[char]) -> (out: String)
    ensures
        out@ == s@,
{
    let mut out = String::new();
    let mut i: usize = 0;
    while i < s.len()
        invariant
            i <= s.len(),
            out@ == s@.take(i as int),
        decreases s.len() - i,
    {
        out.push(s[i]);
        i += 1;
        assert(out@ =~= s@.take(i as int));
    }
    assert(s@.take(s.len() as int) =~= s@);
    out
}

/// The code points with the Unicode property `White_Space`.
pub open spec fn is_whitespace(c: char) -> bool {
    let u = c as u32;
    ||| 0x09 <= u <= 0x0D
    ||| u == 0x20
    ||| u == 0x85
    ||| u == 0xA0
    ||| u == 0x1680
    ||| 0x2000 <= u <= 0x200A
    ||| u == 0x2028
    ||| u == 0x2029
    ||| u == 0x202F
    ||| u == 0x205F
    ||| u == 0x3000
}

pub fn is_space(c: char) -> (b: bool)
    ensures
        b == is_whitespace(c),
{
    let u: u32 = c as u32;
    (0x09 <= u && u <= 0x0D) || u == 0x20 || u == 0x85 || u == 0xA0 || u == 0x1680 || (0x2000 <= u
        && u <= 0x200A) || u == 0x2028 || u == 0x2029 || u == 0x202F || u == 0x205F || u == 0x3000
}

/// The first index at or after `i` that holds no whitespace, or the length.
pub open spec fn skip_space(s: Seq<char>, i: int) -> int
    decreases s.len() - i,
{
    if 0 <= i < s.len() && is_whitespace(s[i]) {
        skip_space(s, i + 1)
    } else {
        i
    }
}

/// The first index at or after `i` that holds whitespace, or the length.
pub open spec fn skip_word(s: Seq<char>, i: int) -> int
    decreases s.len() - i,
{
    if 0 <= i < s.len() && !is_whitespace(s[i]) {
        skip_word(s, i + 1)
    } else {
        i
    }
}

pub proof fn lemma_skip_bounds(s: Seq<char>, i: int)
    requires
        0 <= i <= s.len(),
    ensures
        i <= skip_space(s, i) <= s.len(),
        i <= skip_word(s, i) <= s.len(),
        skip_space(s, i) < s.len() ==> !is_whitespace(s[skip_space(s, i)]),
        skip_space(s, i) < s.len() ==> skip_space(s, i) < skip_word(s, skip_space(s, i)),
    decreases s.len() - i,
{
    if i < s.len() {
        lemma_skip_bounds(s, i + 1);
    }
    let a = skip_space(s, i);
    if a < s.len() {
        assert(skip_word(s, a) == skip_word(s, a + 1));
        lemma_skip_word_bounds(s, a + 1);
    }
}

pub proof fn lemma_skip_word_bounds(s: Seq<char>, i: int)
    requires
        0 <= i <= s.len(),
    ensures
        i <= skip_word(s, i) <= s.len(),
    decreases s.len() - i,
{
    if i < s.len() {
        lemma_skip_word_bounds(s, i + 1);
    }
}

/// The maximal runs of non-whitespace characters of `s` that start at or after `i`, in order.
pub open spec fn words_from(s: Seq<char>, i: int) -> Seq<Seq<char>>
    decreases s.len() - i,
{
    let a = skip_space(s, i);
    let b = skip_word(s, a);
    if 0 <= i <= a < b <= s.len() {
        seq![s.subrange(a, b)] + words_from(s, b)
    } else {
        Seq::empty()
    }
}

/// The maximal runs of non-whitespace characters of `s`, in order.
pub open spec fn words(s: Seq<char>) -> Seq<Seq<char>> {
    words_from(s, 0)
}

/// Every character from `a` up to the end of the word that starts at `a` is no whitespace.
pub proof fn lemma_skip_word_holds_no_whitespace(s: Seq<char>, a: int, j: int)
    requires
        0 <= a <= j < skip_word(s, a),
    ensures
        j < s.len(),
        !is_whitespace(s[j]),
    decreases s.len() - a,
{
    if a < j {
        lemma_skip_word_holds_no_whitespace(s, a + 1, j);
    }
}

/// Every word is non-empty and holds no whitespace.
pub proof fn lemma_words_hold_no_whitespace(s: Seq<char>, i: int, k: int)
    requires
        0 <= i <= s.len(),
        0 <= k < words_from(s, i).len(),
    ensures
        words_from(s, i)[k].len() > 0,
        forall|j: int|
            0 <= j < words_from(s, i)[k].len() ==> !is_whitespace(#[trigger] words_from(s, i)[k][j]),
    decreases s.len() - i,
{
    let a = skip_space(s, i);
    let b = skip_word(s, a);
    lemma_skip_bounds(s, i);
    if a < s.len() {
        lemma_skip_word_bounds(s, a);
    }
    let first = s.subrange(a, b);
    assert(words_from(s, i) == seq![first] + words_from(s, b));
    if k == 0 {
        assert(words_from(s, i)[0] == first);
        assert forall|j: int| 0 <= j < first.len() implies !is_whitespace(#[trigger] first[j]) by {
            lemma_skip_word_holds_no_whitespace(s, a, a + j);
        }
    } else {
        assert(words_from(s, i)[k] == words_from(s, b)[k - 1]);
        lemma_words_hold_no_whitespace(s, b, k - 1);
    }
}

/// The views of the elements of `v`.
pub open spec fn views(v: Seq<Vec<char>>) -> Seq<Seq<char>> {
    Seq::new(v.len(), |k: int| v[k]@)
}

/// A copy of `s[lo..hi]`.
pub fn slice_copy(s: &[char], lo: usize, hi: usize) -> (out: Vec<char>)
    requires
        lo <= hi <= s.len(),
    ensures
        out@ == s@.subrange(lo as int, hi as int),
{
    let mut out: Vec<char> = Vec::new();
    let mut i: usize = lo;
    while i < hi
        invariant
            lo <= i <= hi <= s.len(),
            out@ == s@.subrange(lo as int, i as int),
        decreases hi - i,
    {
        out.push(s[i]);
        i += 1;
        assert(out@ =~= s@.subrange(lo as int, i as int));
    }
    out
}

/// Splits `s` at whitespace, as `str::split_whitespace` does.
pub fn split_whitespace(s: &[char]) -> (out: Vec<Vec<char>>)
    ensures
        views(out@) == words(s@),
{
    let mut out: Vec<Vec<char>> = Vec::new();
    let mut i: usize = 0;
    assert(views(out@) =~= Seq::empty());
    loop
        invariant
            i <= s.len(),
            views(out@) + words_from(s@, i as int) == words(s@),
        decreases s.len() - i,
    {
        let mut a: usize = i;
        while a < s.len() && is_space(s[a])
            invariant
                i <= a <= s.len(),
                skip_space(s@, a as int) == skip_space(s@, i as int),
            decreases s.len() - a,
        {
            a += 1;
        }
        if a >= s.len() {
            assert(words_from(s@, i as int) =~= Seq::empty());
            assert(views(out@) + Seq::<Seq<char>>::empty() =~= views(out@));
            return out;
        }
        let mut b: usize = a;
        while b < s.len() && !is_space(s[b])
            invariant
                a <= b <= s.len(),
                skip_word(s@, b as int) == skip_word(s@, a as int),
            decreases s.len() - b,
        {
            b += 1;
        }
        proof {
            lemma_skip_bounds(s@, i as int);
        }
        let word = slice_copy(s, a, b);
        let ghost before = views(out@);
        out.push(word);
        proof {
            assert(views(out@) =~= before + seq![s@.subrange(a as int, b as int)]);
            assert(words_from(s@, i as int) == seq![s@.subrange(a as int, b as int)] + words_from(
                s@,
                b as int,
            ));
            assert(views(out@) + words_from(s@, b as int) =~= before + words_from(s@, i as int));
        }
        i = b;
    }
}


/// The first index at or after `i` that holds `c`, or the length.
pub open spec fn find_from(s: Seq<char>, c: char, i: int) -> int
    decreases s.len() - i,
{
    if 0 <= i < s.len() && s[i] != c {
        find_from(s, c, i + 1)
    } else {
        i
    }
}

pub proof fn lemma_find_from(s: Seq<char>, c: char, i: int)
    requires
        0 <= i <= s.len(),
    ensures
        i <= find_from(s, c, i) <= s.len(),
        find_from(s, c, i) < s.len() ==> s[find_from(s, c, i)] == c,
        forall|j: int| i <= j < find_from(s, c, i) ==> s[j] != c,
    decreases s.len() - i,
{
    if i < s.len() && s[i] != c {
        lemma_find_from(s, c, i + 1);
    }
}

/// The index of the first `c` in `s` at or after `from`, or the length of `s`.
pub fn find(s: &[char], c: char, from: usize) -> (at: usize)
    requires
        from <= s.len(),
    ensures
        at == find_from(s@, c, from as int),
        from <= at <= s.len(),
{
    let mut at: usize = from;
    while at < s.len() && s[at] != c
        invariant
            from <= at <= s.len(),
            find_from(s@, c, at as int) == find_from(s@, c, from as int),
        decreases s.len() - at,
    {
        at += 1;
    }
    at
}

/// One line without its terminator: `raw` is the text up to the line feed, and a carriage
/// return before the line feed belongs to the terminator.
pub open spec fn strip_line_end(raw: Seq<char>, terminated: bool) -> Seq<char> {
    if terminated && raw.len() > 0 && raw.last() == '\r' {
        raw.drop_last()
    } else {
        raw
    }
}

/// The lines of `s` that start at or after `i`.
pub open spec fn lines_from(s: Seq<char>, i: int) -> Seq<Seq<char>>
    decreases s.len() - i,
{
    let e = find_from(s, '\n', i);
    if 0 <= i < s.len() && i <= e <= s.len() {
        seq![strip_line_end(s.subrange(i, e), e < s.len())] + (if e < s.len() {
            lines_from(s, e + 1)
        } else {
            Seq::empty()
        })
    } else {
        Seq::empty()
    }
}

/// The lines of `s`: the text between line feeds, each without its `\n` or `\r\n`; what
/// follows the last line feed is a line only when it is not empty.
pub open spec fn lines(s: Seq<char>) -> Seq<Seq<char>> {
    lines_from(s, 0)
}

/// Splits `s` into lines, as `str::lines` does.
pub fn split_lines(s: &[char]) -> (out: Vec<Vec<char>>)
    ensures
        views(out@) == lines(s@),
{
    let mut out: Vec<Vec<char>> = Vec::new();
    let mut i: usize = 0;
    assert(views(out@) =~= Seq::empty());
    while i < s.len()
        invariant
            views(out@) + lines_from(s@, i as int) == lines(s@),
        decreases s.len() - i,
    {
        let e = find(s, '\n', i);
        let terminated = e < s.len();
        let hi = if terminated && i < e && s[e - 1] == '\r' {
            e - 1
        } else {
            e
        };
        let line = slice_copy(s, i, hi);
        let ghost before = views(out@);
        let ghost raw = s@.subrange(i as int, e as int);
        out.push(line);
        proof {
            assert(line@ =~= strip_line_end(raw, terminated));
            assert(views(out@) =~= before + seq![strip_line_end(raw, terminated)]);
            if terminated {
                assert(views(out@) + lines_from(s@, e + 1) =~= before + lines_from(
                    s@,
                    i as int,
                ));
            }
        }
        if !terminated {
            assert(views(out@) =~= before + lines_from(s@, i as int));
            return out;
        }
        i = e + 1;
    }
    assert(lines_from(s@, i as int) =~= Seq::empty());
    assert(views(out@) + Seq::<Seq<char>>::empty() =~= views(out@));
    out
}


/// A set of characters to trim: all whitespace, or one given character.
#[derive(Clone, Copy, Debug)]
pub enum CharClass {
    Whitespace,
    Exactly(char),
}

impl CharClass {
    pub open spec fn holds(self, c: char) -> bool {
        match self {
            CharClass::Whitespace => is_whitespace(c),
            CharClass::Exactly(x) => c == x,
        }
    }

    pub fn has(&self, c: char) -> (b: bool)
        ensures
            b == self.holds(c),
    {
        match self {
            CharClass::Whitespace => is_space(c),
            CharClass::Exactly(x) => c == *x,
        }
    }
}

/// The first index at or after `i` whose character is outside `class`, or the length.
pub open spec fn leading(s: Seq<char>, class: CharClass, i: int) -> int
    decreases s.len() - i,
{
    if 0 <= i < s.len() && class.holds(s[i]) {
        leading(s, class, i + 1)
    } else {
        i
    }
}

/// The least `m <= n` such that every character of `s[m..n]` is in `class`.
pub open spec fn trailing(s: Seq<char>, class: CharClass, n: int) -> int
    decreases n,
{
    if 0 < n <= s.len() && class.holds(s[n - 1]) {
        trailing(s, class, n - 1)
    } else {
        n
    }
}

/// `s` without its leading characters of `class`.
pub open spec fn trim_start_of(s: Seq<char>, class: CharClass) -> Seq<char> {
    let a = leading(s, class, 0);
    if 0 <= a <= s.len() {
        s.subrange(a, s.len() as int)
    } else {
        Seq::empty()
    }
}

/// `s` without its leading and trailing characters of `class`.
pub open spec fn trim_of(s: Seq<char>, class: CharClass) -> Seq<char> {
    let a = leading(s, class, 0);
    let b = trailing(s, class, s.len() as int);
    if 0 <= a <= b <= s.len() {
        s.subrange(a, b)
    } else {
        Seq::empty()
    }
}

/// `s` without leading and trailing whitespace, as `str::trim` gives it.
pub open spec fn trim(s: Seq<char>) -> Seq<char> {
    trim_of(s, CharClass::Whitespace)
}

fn leading_index(s: &[char], class: CharClass) -> (a: usize)
    ensures
        a == leading(s@, class, 0),
        a <= s.len(),
{
    let mut a: usize = 0;
    while a < s.len() && class.has(s[a])
        invariant
            a <= s.len(),
            leading(s@, class, a as int) == leading(s@, class, 0),
        decreases s.len() - a,
    {
        a += 1;
    }
    a
}

fn trailing_index(s: &[char], class: CharClass) -> (b: usize)
    ensures
        b == trailing(s@, class, s.len() as int),
        b <= s.len(),
{
    let mut b: usize = s.len();
    while b > 0 && class.has(s[b - 1])
        invariant
            b <= s.len(),
            trailing(s@, class, b as int) == trailing(s@, class, s.len() as int),
        decreases b,
    {
        b -= 1;
    }
    b
}

/// Removes the leading characters of `class`.
pub fn trim_start_matches(s: &[char], class: CharClass) -> (out: Vec<char>)
    ensures
        out@ == trim_start_of(s@, class),
{
    let a = leading_index(s, class);
    slice_copy(s, a, s.len())
}

/// Removes the leading and trailing characters of `class`.
pub fn trim_matches(s: &[char], class: CharClass) -> (out: Vec<char>)
    ensures
        out@ == trim_of(s@, class),
{
    let a = leading_index(s, class);
    let b = trailing_index(s, class);
    if a <= b {
        slice_copy(s, a, b)
    } else {
        Vec::new()
    }
}

/// Whether `s` begins with `prefix`.
pub open spec fn has_prefix(s: Seq<char>, prefix: Seq<char>) -> bool {
    prefix.len() <= s.len() && s.take(prefix.len() as int) == prefix
}

/// Whether `s` begins with the characters of `prefix`.
pub fn starts_with(s: &[char], prefix: &str) -> (b: bool)
    ensures
        b == has_prefix(s@, prefix@),
{
    let p = chars_of(prefix);
    if p.len() > s.len() {
        return false;
    }
    let mut i: usize = 0;
    while i < p.len()
        invariant
            i <= p.len() <= s.len(),
            p@ == prefix@,
            s@.take(i as int) == p@.take(i as int),
        decreases p.len() - i,
    {
        if s[i] != p[i] {
            assert(s@.take(p.len() as int)[i as int] != p@[i as int]);
            return false;
        }
        i += 1;
        assert(s@.take(i as int) =~= s@.take(i - 1).push(s@[i - 1]));
        assert(p@.take(i as int) =~= p@.take(i - 1).push(p@[i - 1]));
    }
    assert(p@.take(p.len() as int) =~= p@);
    true
}

/// Whether `s` holds exactly the characters of `other`.
pub fn equals(s: &[char], other: &str) -> (b: bool)
    ensures
        b == (s@ == other@),
{
    let p = chars_of(other);
    if p.len() != s.len() {
        return false;
    }
    let b = starts_with(s, other);
    assert(s@.take(s.len() as int) =~= s@);
    b
}

/// Whether `c` occurs in `s`.
pub fn contains(s: &[char], c: char) -> (b: bool)
    ensures
        b == s@.contains(c),
{
    let at = find(s, c, 0);
    proof {
        lemma_find_from(s@, c, 0);
    }
    at < s.len()
}

/// The parts of `s` before and after its first `c`.
pub open spec fn split_once_of(s: Seq<char>, c: char) -> Option<(Seq<char>, Seq<char>)> {
    let k = find_from(s, c, 0);
    if 0 <= k < s.len() {
        Some((s.take(k), s.skip(k + 1)))
    } else {
        None
    }
}

/// Splits `s` at its first `c`, as `str::split_once` does.
pub fn split_once(s: &[char], c: char) -> (out: Option<(Vec<char>, Vec<char>)>)
    ensures
        match out {
            Some(pair) => split_once_of(s@, c) == Some((pair.0@, pair.1@)),
            None => split_once_of(s@, c) is None,
        },
{
    let k = find(s, c, 0);
    if k < s.len() {
        let head = slice_copy(s, 0, k);
        let tail = slice_copy(s, k + 1, s.len());
        assert(head@ =~= s@.take(k as int));
        assert(tail@ =~= s@.skip(k + 1));
        Some((head, tail))
    } else {
        None
    }
}

/// The greatest index below `n` that holds `c`, or -1.
pub open spec fn rfind_from(s: Seq<char>, c: char, n: int) -> int
    decreases n,
{
    if 0 < n <= s.len() && s[n - 1] != c {
        rfind_from(s, c, n - 1)
    } else {
        n - 1
    }
}

/// The parts of `s` before and after its last `c`.
pub open spec fn rsplit_once_of(s: Seq<char>, c: char) -> Option<(Seq<char>, Seq<char>)> {
    let k = rfind_from(s, c, s.len() as int);
    if 0 <= k < s.len() {
        Some((s.take(k), s.skip(k + 1)))
    } else {
        None
    }
}

/// Splits `s` at its last `c`, as `str::rsplit_once` does.
pub fn rsplit_once(s: &[char], c: char) -> (out: Option<(Vec<char>, Vec<char>)>)
    ensures
        match out {
            Some(pair) => rsplit_once_of(s@, c) == Some((pair.0@, pair.1@)),
            None => rsplit_once_of(s@, c) is None,
        },
{
    let mut n: usize = s.len();
    while n > 0 && s[n - 1] != c
        invariant
            n <= s.len(),
            rfind_from(s@, c, n as int) == rfind_from(s@, c, s.len() as int),
        decreases n,
    {
        n -= 1;
    }
    if n > 0 {
        let head = slice_copy(s, 0, n - 1);
        let tail = slice_copy(s, n, s.len());
        assert(head@ =~= s@.take(n - 1));
        assert(tail@ =~= s@.skip(n as int));
        Some((head, tail))
    } else {
        None
    }
}


pub open spec fn is_digit(c: char) -> bool {
    '0' <= c && c <= '9'
}

/// Whether every character of `s` is a decimal digit.
pub open spec fn all_digits(s: Seq<char>) -> bool {
    forall|i: int| 0 <= i < s.len() ==> is_digit(#[trigger] s[i])
}

/// The value of the decimal digit `c`.
pub open spec fn digit_value(c: char) -> nat {
    (c as u32 - '0' as u32) as nat
}

/// The number that the decimal digits `s` write; 0 for no digits.
pub open spec fn decimal_value(s: Seq<char>) -> nat
    decreases s.len(),
{
    if s.len() == 0 {
        0
    } else {
        decimal_value(s.drop_last()) * 10 + digit_value(s.last())
    }
}

/// `s` without one leading `+`.
pub open spec fn unsigned_digits(s: Seq<char>) -> Seq<char> {
    if s.len() > 0 && s[0] == '+' {
        s.drop_first()
    } else {
        s
    }
}

/// What `str::parse::<u64>` makes of `s`: an optional `+`, then one or more decimal digits
/// whose value fits 64 bits.
pub open spec fn parse_u64_of(s: Seq<char>) -> Option<u64> {
    let d = unsigned_digits(s);
    if d.len() > 0 && all_digits(d) && decimal_value(d) <= u64::MAX {
        Some(decimal_value(d) as u64)
    } else {
        None
    }
}

/// The value that a missing or unreadable counter stands for.
pub open spec fn or_zero(v: Option<u64>) -> u64 {
    match v {
        Some(n) => n,
        None => 0,
    }
}

/// A longer digit string writes no smaller number than any of its prefixes.
pub proof fn lemma_decimal_value_monotonic(s: Seq<char>, i: int)
    requires
        0 <= i <= s.len(),
    ensures
        decimal_value(s.take(i)) <= decimal_value(s),
    decreases s.len() - i,
{
    if i < s.len() {
        lemma_decimal_value_monotonic(s, i + 1);
        assert(s.take(i + 1).drop_last() =~= s.take(i));
    } else {
        assert(s.take(i) =~= s);
    }
}

pub fn is_decimal_digit(c: char) -> (b: bool)
    ensures
        b == is_digit(c),
{
    '0' <= c && c <= '9'
}

/// The number that `s` writes when `s` is one or more decimal digits whose value fits 64
/// bits.
pub open spec fn parse_digits_of(s: Seq<char>) -> Option<u64> {
    if s.len() > 0 && all_digits(s) && decimal_value(s) <= u64::MAX {
        Some(decimal_value(s) as u64)
    } else {
        None
    }
}

/// Reads a run of decimal digits.
pub fn parse_digits(s: &[char]) -> (out: Option<u64>)
    ensures
        out == parse_digits_of(s@),
{
    if s.len() == 0 {
        return None;
    }
    let mut acc: u64 = 0;
    let mut i: usize = 0;
    assert(s@.take(0) =~= Seq::empty());
    while i < s.len()
        invariant
            i <= s.len(),
            all_digits(s@.take(i as int)),
            acc == decimal_value(s@.take(i as int)),
        decreases s.len() - i,
    {
        let c = s[i];
        let ghost k = i as int;
        proof {
            assert(s@.take(k + 1).drop_last() =~= s@.take(k));
            assert(s@.take(k + 1).last() == c);
            lemma_decimal_value_monotonic(s@, k + 1);
        }
        if !is_decimal_digit(c) {
            assert(!is_digit(s@[k]));
            return None;
        }
        assert(decimal_value(s@.take(k + 1)) == acc * 10 + digit_value(c));
        let digit: u64 = (c as u32 - '0' as u32) as u64;
        let next = match acc.checked_mul(10) {
            Some(v) => v.checked_add(digit),
            None => None,
        };
        match next {
            Some(v) => {
                acc = v;
            },
            None => {
                return None;
            },
        }
        i += 1;
        proof {
            assert forall|j: int| 0 <= j < k + 1 implies is_digit(#[trigger] s@.take(k + 1)[j]) by {
                if j < k {
                    assert(s@.take(k)[j] == s@.take(k + 1)[j]);
                }
            }
        }
    }
    assert(s@.take(s.len() as int) =~= s@);
    Some(acc)
}

/// Parses `s` as `str::parse::<u64>` does.
pub fn parse_u64(s: &[char]) -> (out: Option<u64>)
    ensures
        out == parse_u64_of(s@),
{
    if s.len() > 0 && s[0] == '+' {
        let digits = slice_copy(s, 1, s.len());
        assert(digits@ =~= s@.drop_first());
        parse_digits(digits.as_slice())
    } else {
        parse_digits(s)
    }
}

/// The number in field `k` of `fields`, or zero when the field is missing or no number.
pub open spec fn field_or_zero(fields: Seq<Seq<char>>, k: int) -> u64 {
    if 0 <= k < fields.len() {
        or_zero(parse_u64_of(fields[k]))
    } else {
        0
    }
}

/// Reads field `k` as a number, with zero for a field that is missing or no number.
pub fn number_at(fields: &Vec<Vec<char>>, k: usize) -> (n: u64)
    ensures
        n == field_or_zero(views(fields@), k as int),
{
    if k < fields.len() {
        assert(views(fields@)[k as int] == fields@[k as int]@);
        match parse_u64(fields[k].as_slice()) {
            Some(v) => v,
            None => 0,
        }
    } else {
        0
    }
}

/// The product of `a` and `b`, or the greatest 64-bit number when the product is greater.
pub open spec fn saturating_product(a: u64, b: u64) -> u64 {
    if a * b <= u64::MAX {
        (a * b) as u64
    } else {
        u64::MAX
    }
}

pub fn saturating_mul(a: u64, b: u64) -> (p: u64)
    ensures
        p == saturating_product(a, b),
{
    match a.checked_mul(b) {
        Some(p) => p,
        None => u64::MAX,
    }
}

/// The value of the last entry of `entries` whose key is `key`.
pub open spec fn lookup<V>(entries: Seq<(Seq<char>, V)>, key: Seq<char>) -> Option<V>
    decreases entries.len(),
{
    if entries.len() == 0 {
        None
    } else if entries.last().0 == key {
        Some(entries.last().1)
    } else {
        lookup(entries.drop_last(), key)
    }
}

/// The views of keyed numbers.
pub open spec fn numbered(entries: Seq<(Vec<char>, u64)>) -> Seq<(Seq<char>, u64)> {
    Seq::new(entries.len(), |k: int| (entries[k].0@, entries[k].1))
}

/// The views of keyed texts.
pub open spec fn keyed(entries: Seq<(Vec<char>, Vec<char>)>) -> Seq<(Seq<char>, Seq<char>)> {
    Seq::new(entries.len(), |k: int| (entries[k].0@, entries[k].1@))
}

/// The number of the last entry with the key `key`.
pub fn last_number(entries: &Vec<(Vec<char>, u64)>, key: &str) -> (out: Option<u64>)
    ensures
        out == lookup(numbered(entries@), key@),
{
    let mut n: usize = entries.len();
    let ghost all = numbered(entries@);
    assert(all.take(n as int) =~= all);
    while n > 0
        invariant
            n <= entries.len(),
            all == numbered(entries@),
            lookup(all.take(n as int), key@) == lookup(all, key@),
        decreases n,
    {
        assert(all.take(n as int).last() == (entries@[n - 1].0@, entries@[n - 1].1));
        assert(all.take(n as int).drop_last() =~= all.take(n - 1));
        if equals(entries[n - 1].0.as_slice(), key) {
            return Some(entries[n - 1].1);
        }
        n -= 1;
    }
    None
}

/// The text of the last entry with the key `key`.
pub fn last_text(entries: &Vec<(Vec<char>, Vec<char>)>, key: &str) -> (out: Option<Vec<char>>)
    ensures
        match out {
            Some(t) => lookup(keyed(entries@), key@) == Some(t@),
            None => lookup(keyed(entries@), key@) is None,
        },
{
    let mut n: usize = entries.len();
    let ghost all = keyed(entries@);
    assert(all.take(n as int) =~= all);
    while n > 0
        invariant
            n <= entries.len(),
            all == keyed(entries@),
            lookup(all.take(n as int), key@) == lookup(all, key@),
        decreases n,
    {
        assert(all.take(n as int).last() == (entries@[n - 1].0@, entries@[n - 1].1@));
        assert(all.take(n as int).drop_last() =~= all.take(n - 1));
        if equals(entries[n - 1].0.as_slice(), key) {
            let text = slice_copy(entries[n - 1].1.as_slice(), 0, entries[n - 1].1.len());
            assert(text@ =~= entries@[n - 1].1@);
            return Some(text);
        }
        n -= 1;
    }
    None
}

/// `lines` without its first `n`, or nothing when there are no more than `n`.
pub open spec fn after_header(lines: Seq<Seq<char>>, n: int) -> Seq<Seq<char>> {
    if 0 <= n <= lines.len() {
        lines.skip(n)
    } else {
        Seq::empty()
    }
}


/// The character that writes the digit `d`.
pub open spec fn digit_char(d: nat) -> char {
    if d == 0 {
        '0'
    } else if d == 1 {
        '1'
    } else if d == 2 {
        '2'
    } else if d == 3 {
        '3'
    } else if d == 4 {
        '4'
    } else if d == 5 {
        '5'
    } else if d == 6 {
        '6'
    } else if d == 7 {
        '7'
    } else if d == 8 {
        '8'
    } else {
        '9'
    }
}

/// The decimal notation of `n`, without leading zeros.
pub open spec fn decimal_digits(n: nat) -> Seq<char>
    decreases n,
{
    if n < 10 {
        seq![digit_char(n)]
    } else {
        decimal_digits(n / 10).push(digit_char(n % 10))
    }
}

/// The notation of a number reads back as that number.
pub proof fn lemma_decimal_digits_read_back(n: nat)
    ensures
        decimal_digits(n).len() > 0,
        all_digits(decimal_digits(n)),
        decimal_value(decimal_digits(n)) == n,
        n <= u64::MAX ==> parse_u64_of(decimal_digits(n)) == Some(n as u64),
    decreases n,
{
    let s = decimal_digits(n);
    if n < 10 {
        assert(s.drop_last() =~= Seq::empty());
        assert(decimal_value(s.drop_last()) == 0);
        assert(digit_value(s.last()) == n);
    } else {
        lemma_decimal_digits_read_back(n / 10);
        assert(s.drop_last() =~= decimal_digits(n / 10));
        assert(digit_value(digit_char(n % 10)) == n % 10);
        assert forall|i: int| 0 <= i < s.len() implies is_digit(#[trigger] s[i]) by {
            if i < s.len() - 1 {
                assert(s[i] == decimal_digits(n / 10)[i]);
            }
        }
    }
    assert(s[0] != '+');
}

fn digit_of(d: u64) -> (c: char)
    requires
        d < 10,
    ensures
        c == digit_char(d as nat),
{
    if d == 0 {
        '0'
    } else if d == 1 {
        '1'
    } else if d == 2 {
        '2'
    } else if d == 3 {
        '3'
    } else if d == 4 {
        '4'
    } else if d == 5 {
        '5'
    } else if d == 6 {
        '6'
    } else if d == 7 {
        '7'
    } else if d == 8 {
        '8'
    } else {
        '9'
    }
}

fn push_decimal(out: &mut String, n: u64)
    ensures
        final(out)@ == old(out)@ + decimal_digits(n as nat),
    decreases n,
{
    if n >= 10 {
        push_decimal(out, n / 10);
    }
    let ghost before = out@;
    out.push(digit_of(n % 10));
    assert(out@ =~= old(out)@ + decimal_digits(n as nat));
}

/// The decimal notation of `n`.
pub fn decimal_string(n: u64) -> (out: String)
    ensures
        out@ == decimal_digits(n as nat),
{
    let mut out = String::new();
    push_decimal(&mut out, n);
    assert(Seq::<char>::empty() + decimal_digits(n as nat) =~= decimal_digits(n as nat));
    out
}


} // verus!
