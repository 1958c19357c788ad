//! Text scanning over sequences of characters: whitespace, trimming, lines,
//! tokens, searching, joining and decimal numbers.
//!
//! Every executable function here is specified by a spec function over
//! `Seq<char>`, the view of `str` and `String`.

use vstd::prelude::*;
use vstd::string::*;

verus! {

/// The characters that carry the Unicode property White_Space.
pub open spec fn is_space(c: char) -> bool {
    let n = c as u32;
    ||| 0x09 <= n <= 0x0D
    ||| n == 0x20
    ||| n == 0x85
    ||| n == 0xA0
    ||| n == 0x1680
    ||| 0x2000 <= n <= 0x200A
    ||| n == 0x2028
    ||| n == 0x2029
    ||| n == 0x202F
    ||| n == 0x205F
    ||| n == 0x3000
}

/// A set of characters that a scan looks for.
#[derive(Clone, Copy, Debug)]
pub enum CharClass {
    /// Any white space character.
    Space,
    /// Any character that is not white space.
    NonSpace,
    /// One given character.
    Exactly(char),
}

impl CharClass {
    /// Whether `c` belongs to the class.
    pub open spec fn holds(self, c: char) -> bool {
        match self {
            CharClass::Space => is_space(c),
            CharClass::NonSpace => !is_space(c),
            CharClass::Exactly(d) => c == d,
        }
    }

    /// Tests one character against the class.
    pub fn test(self, c: char) -> (r: bool)
        ensures
            r == self.holds(c),
    {
        match self {
            CharClass::Space => is_space_char(c),
            CharClass::NonSpace => !is_space_char(c),
            CharClass::Exactly(d) => c == d,
        }
    }
}

/// Tests one character for white space.
pub fn is_space_char(c: char) -> (r: bool)
    ensures
        r == is_space(c),
{
    let n: u32 = c as u32;
    (0x09 <= n && n <= 0x0D) || n == 0x20 || n == 0x85 || n == 0xA0 || n == 0x1680 || (0x2000 <= n
        && n <= 0x200A) || n == 0x2028 || n == 0x2029 || n == 0x202F || n == 0x205F || n == 0x3000
}

/// The least index at or after `start` whose character is in `class`, or the
/// length of `s` where there is none.
pub open spec fn find_from(s: Seq<char>, class: CharClass, start: int) -> int
    decreases s.len() - start,
{
    if start >= s.len() {
        s.len() as int
    } else if start >= 0 && class.holds(s[start]) {
        start
    } else {
        find_from(s, class, start + 1)
    }
}

/// The characters of a string, in order.
pub fn chars_of(s: &str) -> (v: Vec<char>)
    ensures
        v@ == s@,
{
    let mut v: Vec<char> = Vec::new();
    for c in it: s.chars()
        invariant
            v@ == it.seq().take(it.index() as int),
            it.seq() == s@,
    {
        v.push(c);
    }
    v
}

/// Scans `chars` from `start` for the first character in `class`.
pub fn scan(chars: &Vec<char>, class: CharClass, start: usize) -> (r: usize)
    requires
        start <= chars.len(),
    ensures
        r == find_from(chars@, class, start as int),
        start <= r <= chars.len(),
{
    let mut i: usize = start;
    while i < chars.len()
        invariant
            start <= i <= chars.len(),
            find_from(chars@, class, start as int) == find_from(chars@, class, i as int),
        decreases chars.len() - i,
    {
        if class.test(chars[i]) {
            return i;
        }
        i += 1;
    }
    i
}

/// The characters of `s` from `from` up to `to`, as a new string.
pub fn slice(s: &str, from: usize, to: usize) -> (r: String)
    requires
        from <= to <= s@.len(),
    ensures
        r@ == s@.subrange(from as int, to as int),
{
    s.substring_char(from, to).to_owned()
}

/// Whether two strings hold the same characters.
pub fn same_text(a: &str, b: &str) -> (r: bool)
    ensures
        r == (a@ == b@),
{
    let x = chars_of(a);
    let y = chars_of(b);
    if x.len() != y.len() {
        return false;
    }
    let mut i: usize = 0;
    while i < x.len()
        invariant
            x@ == a@,
            y@ == b@,
            i <= x.len(),
            x.len() == y.len(),
            forall|j: int| 0 <= j < i ==> x[j] == y[j],
        decreases x.len() - i,
    {
        if x[i] != y[i] {
            assert(a@[i as int] != b@[i as int]);
            return false;
        }
        i += 1;
    }
    assert(x@ =~= y@);
    true
}

/// `a` followed by `b`.
pub fn cat2(a: &str, b: &str) -> (r: String)
    ensures
        r@ == a@ + b@,
{
    let mut s = String::from_str(a);
    s.append(b);
    s
}

/// `a`, then `b`, then `c`.
pub fn cat3(a: &str, b: &str, c: &str) -> (r: String)
    ensures
        r@ == a@ + b@ + c@,
{
    let mut s = String::from_str(a);
    s.append(b);
    s.append(c);
    s
}

/// One past the last character that is not white space; 0 where all are.
pub open spec fn trim_end_index(s: Seq<char>) -> int
    decreases s.len(),
{
    if s.len() == 0 {
        0
    } else if !is_space(s.last()) {
        s.len() as int
    } else {
        trim_end_index(s.drop_last())
    }
}

/// `s` without the white space at its two ends.
pub open spec fn trimmed(s: Seq<char>) -> Seq<char> {
    let a = find_from(s, CharClass::NonSpace, 0);
    let b = trim_end_index(s);
    if a < b {
        s.subrange(a, b)
    } else {
        Seq::empty()
    }
}

/// Removes the white space at both ends of `s`.
pub fn trim(s: &str) -> (r: String)
    ensures
        r@ == trimmed(s@),
{
    let chars = chars_of(s);
    let a = scan(&chars, CharClass::NonSpace, 0);
    let mut b: usize = chars.len();
    assert(chars@.take(b as int) =~= chars@);
    while b > 0 && is_space_char(chars[b - 1])
        invariant
            b <= chars.len(),
            trim_end_index(chars@) == trim_end_index(chars@.take(b as int)),
        decreases b,
    {
        assert(chars@.take(b as int).drop_last() =~= chars@.take(b - 1));
        b -= 1;
    }
    if a < b {
        slice(s, a, b)
    } else {
        String::new()
    }
}

/// The first line of `s`, without its line ending: what stands before the
/// first line feed, less a carriage return directly before that line feed.
/// An empty text has no line.
pub open spec fn first_line(s: Seq<char>) -> Option<Seq<char>> {
    if s.len() == 0 {
        None
    } else {
        let end = find_from(s, CharClass::Exactly('\n'), 0);
        if 0 < end < s.len() && s[end - 1] == '\r' {
            Some(s.subrange(0, end - 1))
        } else {
            Some(s.subrange(0, end))
        }
    }
}

/// Takes the first line of `s`.
pub fn take_first_line(s: &str) -> (r: Option<String>)
    ensures
        r.deep_view() == first_line(s@),
{
    let chars = chars_of(s);
    if chars.len() == 0 {
        return None;
    }
    let end = scan(&chars, CharClass::Exactly('\n'), 0);
    if 0 < end && end < chars.len() && chars[end - 1] == '\r' {
        Some(slice(s, 0, end - 1))
    } else {
        Some(slice(s, 0, end))
    }
}

/// Where the token with number `n` (from 0) lies among the white-space
/// separated tokens of `s` that begin at or after `start`.
pub open spec fn token_span(s: Seq<char>, start: int, n: nat) -> Option<(int, int)>
    decreases n,
{
    let a = find_from(s, CharClass::NonSpace, start);
    let b = find_from(s, CharClass::Space, a);
    if a >= s.len() {
        None
    } else if n == 0 {
        Some((a, b))
    } else {
        token_span(s, b, (n - 1) as nat)
    }
}

/// The white-space separated token of `s` with number `n`, counting from 0.
pub open spec fn token(s: Seq<char>, n: nat) -> Option<Seq<char>> {
    match token_span(s, 0, n) {
        Some((a, b)) => Some(s.subrange(a, b)),
        None => None,
    }
}

/// Takes the white-space separated token with number `n` from `s`.
pub fn nth_token(s: &str, n: usize) -> (r: Option<String>)
    ensures
        r.deep_view() == token(s@, n as nat),
{
    let chars = chars_of(s);
    let mut start: usize = 0;
    let mut left: usize = n;
    loop
        invariant
            chars@ == s@,
            start <= chars.len(),
            left <= n,
            token_span(chars@, 0, n as nat) == token_span(chars@, start as int, left as nat),
        decreases left,
    {
        let a = scan(&chars, CharClass::NonSpace, start);
        if a >= chars.len() {
            return None;
        }
        let b = scan(&chars, CharClass::Space, a);
        if left == 0 {
            return Some(slice(s, a, b));
        }
        start = b;
        left -= 1;
    }
}

/// `s` without the run of `c` at its end.
pub open spec fn strip_trailing(s: Seq<char>, c: char) -> Seq<char>
    decreases s.len(),
{
    if s.len() > 0 && s.last() == c {
        strip_trailing(s.drop_last(), c)
    } else {
        s
    }
}

/// Removes every `c` that stands at the end of `s`.
pub fn trim_trailing(s: &str, c: char) -> (r: String)
    ensures
        r@ == strip_trailing(s@, c),
{
    let chars = chars_of(s);
    let mut b: usize = chars.len();
    assert(chars@.take(b as int) =~= chars@);
    while b > 0 && chars[b - 1] == c
        invariant
            b <= chars.len(),
            strip_trailing(chars@, c) == strip_trailing(chars@.take(b as int), c),
        decreases b,
    {
        assert(chars@.take(b as int).drop_last() =~= chars@.take(b - 1));
        b -= 1;
    }
    slice(s, 0, b)
}

/// What stands in `s` before the first `c`; all of `s` where it holds none.
pub open spec fn before_first(s: Seq<char>, c: char) -> Seq<char> {
    s.subrange(0, find_from(s, CharClass::Exactly(c), 0))
}

/// Takes what stands before the first `c`.
pub fn take_before(s: &str, c: char) -> (r: String)
    ensures
        r@ == before_first(s@, c),
{
    let chars = chars_of(s);
    let end = scan(&chars, CharClass::Exactly(c), 0);
    slice(s, 0, end)
}

/// Whether `part` stands in `s` at position `at`.
pub open spec fn occurs_at(s: Seq<char>, part: Seq<char>, at: int) -> bool {
    0 <= at && at + part.len() <= s.len() && s.subrange(at, at + part.len()) == part
}

/// Whether `part` stands somewhere in `s`.
pub open spec fn contains_text(s: Seq<char>, part: Seq<char>) -> bool {
    exists|at: int| occurs_at(s, part, at)
}

/// Searches `s` for `part`.
pub fn contains(s: &str, part: &str) -> (r: bool)
    ensures
        r == contains_text(s@, part@),
{
    let text = chars_of(s);
    let word = chars_of(part);
    if word.len() > text.len() {
        return false;
    }
    let last: usize = text.len() - word.len();
    let mut at: usize = 0;
    while at <= last
        invariant
            text@ == s@,
            word@ == part@,
            word.len() <= text.len(),
            last == text.len() - word.len(),
            at <= last + 1,
            forall|k: int| 0 <= k < at ==> !occurs_at(text@, word@, k),
        decreases last + 1 - at,
    {
        let mut j: usize = 0;
        while j < word.len() && text[at + j] == word[j]
            invariant
                at <= last,
                last == text.len() - word.len(),
                j <= word.len(),
                forall|k: int| 0 <= k < j ==> text[at + k] == word[k],
            decreases word.len() - j,
        {
            j += 1;
        }
        if j == word.len() {
            assert(text@.subrange(at as int, at + word.len()) =~= word@);
            assert(occurs_at(text@, word@, at as int));
            return true;
        }
        assert(!occurs_at(text@, word@, at as int)) by {
            if occurs_at(text@, word@, at as int) {
                assert(text@.subrange(at as int, at + word.len())[j as int] == word@[j as int]);
            }
        }
        at += 1;
    }
    false
}

/// The parts in order, with `sep` between each two.
pub open spec fn joined(parts: Seq<Seq<char>>, sep: Seq<char>) -> Seq<char>
    decreases parts.len(),
{
    if parts.len() == 0 {
        Seq::empty()
    } else if parts.len() == 1 {
        parts[0]
    } else {
        joined(parts.drop_last(), sep) + sep + parts.last()
    }
}

/// Joins `parts` with `sep` between each two.
pub fn join(parts: &Vec<String>, sep: &str) -> (r: String)
    ensures
        r@ == joined(parts.deep_view(), sep@),
{
    let mut out = String::new();
    let mut i: usize = 0;
    while i < parts.len()
        invariant
            i <= parts.len(),
            out@ == joined(parts.deep_view().take(i as int), sep@),
        decreases parts.len() - i,
    {
        proof {
            let next = parts.deep_view().take(i + 1);
            assert(next.drop_last() =~= parts.deep_view().take(i as int));
            assert(next.last() == parts[i as int]@);
            if i == 0 {
                assert(out@ + parts[i as int]@ =~= parts[i as int]@);
            }
        }
        if i > 0 {
            out.append(sep);
        }
        out.append(parts[i].as_str());
        i += 1;
    }
    assert(parts.deep_view().take(parts.len() as int) =~= parts.deep_view());
    out
}

/// Whether `c` is one of the ten decimal digits.
pub open spec fn is_digit(c: char) -> bool {
    0x30 <= c as u32 <= 0x39
}

/// The number that a decimal digit stands for.
pub open spec fn digit_value(c: char) -> nat {
    if is_digit(c) {
        (c as u32 - 0x30) as nat
    } else {
        0
    }
}

/// The number that a sequence of decimal digits writes.
pub open spec fn decimal_value(s: Seq<char>) -> nat
    decreases s.len(),
{
    if s.len() == 0 {
        0
    } else {
        decimal_value(s.drop_last()) * 10 + digit_value(s.last())
    }
}

/// Whether `s` holds decimal digits only.
pub open spec fn all_digits(s: Seq<char>) -> bool {
    forall|i: int| 0 <= i < s.len() ==> is_digit(#[trigger] s[i])
}

/// The number that `s` writes, where `s` is one or more decimal digits and
/// the number fits in 32 bits.
pub open spec fn parse_decimal(s: Seq<char>) -> Option<u32> {
    if s.len() > 0 && all_digits(s) && decimal_value(s) <= u32::MAX {
        Some(decimal_value(s) as u32)
    } else {
        None
    }
}

/// A number never gets smaller as digits are added at its end.
pub proof fn lemma_decimal_value_grows(s: Seq<char>, i: int)
    requires
        0 <= i <= s.len(),
    ensures
        decimal_value(s.take(i)) <= decimal_value(s),
    decreases s.len(),
{
    if i == s.len() {
        assert(s.take(i) =~= s);
    } else {
        assert(s.drop_last().take(i) =~= s.take(i));
        lemma_decimal_value_grows(s.drop_last(), i);
    }
}

/// Reads `chars[from..to]` as a decimal number of 32 bits.
pub fn parse_number(chars: &Vec<char>, from: usize, to: usize) -> (r: Option<u32>)
    requires
        from <= to <= chars.len(),
    ensures
        r == parse_decimal(chars@.subrange(from as int, to as int)),
{
    let ghost digits = chars@.subrange(from as int, to as int);
    if from == to {
        return None;
    }
    let mut value: u64 = 0;
    let mut i: usize = from;
    while i < to
        invariant
            from <= i <= to <= chars.len(),
            digits == chars@.subrange(from as int, to as int),
            all_digits(digits.take(i - from)),
            value == decimal_value(digits.take(i - from)),
            value <= u32::MAX,
        decreases to - i,
    {
        let c = chars[i];
        let n: u32 = c as u32;
        assert(digits[i - from] == c);
        if n < 0x30 || n > 0x39 {
            return None;
        }
        proof {
            let next = digits.take(i + 1 - from);
            assert(next.drop_last() =~= digits.take(i - from));
            lemma_decimal_value_grows(digits, i + 1 - from);
        }
        value = value * 10 + (n - 0x30) as u64;
        if value > 0xFFFF_FFFF {
            return None;
        }
        i += 1;
    }
    assert(digits.take(to - from) =~= digits);
    Some(value as u32)
}

/// Every part stands somewhere in the joined text.
pub proof fn lemma_joined_contains(parts: Seq<Seq<char>>, sep: Seq<char>, i: int)
    requires
        0 <= i < parts.len(),
    ensures
        contains_text(joined(parts, sep), parts[i]),
    decreases parts.len(),
{
    let all = joined(parts, sep);
    if parts.len() == 1 {
        assert(all.subrange(0, all.len() as int) =~= all);
        assert(occurs_at(all, parts[i], 0));
    } else {
        let front = joined(parts.drop_last(), sep);
        if i == parts.len() - 1 {
            let at = (front.len() + sep.len()) as int;
            assert(all.subrange(at, at + parts[i].len()) =~= parts[i]);
            assert(occurs_at(all, parts[i], at));
        } else {
            lemma_joined_contains(parts.drop_last(), sep, i);
            let at = choose|at: int| occurs_at(front, parts.drop_last()[i], at);
            assert(all.subrange(at, at + parts[i].len()) =~= front.subrange(
                at,
                at + parts[i].len(),
            ));
            assert(occurs_at(all, parts[i], at));
        }
    }
}

/// What stands in a part of a text stands in the text.
pub proof fn lemma_contains_in_suffix(prefix: Seq<char>, s: Seq<char>, part: Seq<char>)
    requires
        contains_text(s, part),
    ensures
        contains_text(prefix + s, part),
{
    let at = choose|at: int| occurs_at(s, part, at);
    let all = prefix + s;
    assert(all.subrange(prefix.len() + at, prefix.len() + at + part.len()) =~= s.subrange(
        at,
        at + part.len(),
    ));
    assert(occurs_at(all, part, prefix.len() + at));
}

} // verus!
