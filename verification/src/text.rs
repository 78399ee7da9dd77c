//! Character-level building blocks: moving between strings and character
//! vectors, decimal rendering of integers, substring search and the
//! whitespace classes the parsers split on.
//!
//! Everything is stated over `Seq<char>`, the view of `str` and `String`.

use vstd::prelude::*;
use vstd::std_specs::iter::IteratorSpec;

verus! {

/// Trusted: `String::push` appends exactly one character to the end of the
/// string and leaves what was already there untouched.
pub assume_specification[ String::push ](s: &mut String, c: char)
    ensures
        final(s)@ == old(s)@.push(c),
;

/// The characters of `s`, in order, as a vector that can be indexed in
/// constant time.
pub fn chars_of(s: &str) -> (chars: Vec<char>)
    ensures
        chars@ == s@,
{
    let mut chars: Vec<char> = Vec::new();
    for c in it: s.chars()
        invariant
            it.seq() == s@,
            chars@ == s@.take(it.index()),
    {
        chars.push(c);
    }
    chars
}

/// The string made of `chars[from..to]`.
pub fn text_of(chars: &Vec<char>, from: usize, to: usize) -> (text: String)
    requires
        from <= to <= chars.len(),
    ensures
        text@ == chars@.subrange(from as int, to as int),
{
    let mut text = String::new();
    let mut i: usize = from;
    while i < to
        invariant
            from <= i <= to <= chars.len(),
            text@ == chars@.subrange(from as int, i as int),
        decreases to - i,
    {
        text.push(chars[i]);
        i += 1;
    }
    text
}

/// `needle` occurs in `hay` starting at position `at`.
pub open spec fn occurs_at(hay: Seq<char>, needle: Seq<char>, at: int) -> bool {
    &&& 0 <= at
    &&& at + needle.len() <= hay.len()
    &&& hay.subrange(at, at + needle.len()) == needle
}

/// `needle` occurs somewhere in `hay`. The empty needle occurs in every
/// string.
pub open spec fn contains_text(hay: Seq<char>, needle: Seq<char>) -> bool {
    exists|at: int| occurs_at(hay, needle, at)
}

/// Whether `needle` matches `hay` at position `at`, compared character by
/// character.
fn matches_at(hay: &Vec<char>, needle: &Vec<char>, at: usize) -> (hit: bool)
    requires
        at + needle.len() <= hay.len(),
    ensures
        hit == occurs_at(hay@, needle@, at as int),
{
    let mut k: usize = 0;
    while k < needle.len()
        invariant
            k <= needle.len(),
            at + needle.len() <= hay.len(),
            forall|j: int| 0 <= j < k ==> hay@[at + j] == needle@[j],
        decreases needle.len() - k,
    {
        if hay[at + k] != needle[k] {
            assert(hay@.subrange(at as int, at + needle@.len())[k as int] != needle@[k as int]);
            return false;
        }
        k += 1;
    }
    assert(hay@.subrange(at as int, at + needle@.len()) =~= needle@);
    true
}

/// Substring search: whether `needle` occurs anywhere in `hay`.
pub fn contains(hay: &str, needle: &str) -> (found: bool)
    ensures
        found == contains_text(hay@, needle@),
{
    let hay_chars = chars_of(hay);
    let needle_chars = chars_of(needle);
    if needle_chars.len() > hay_chars.len() {
        return false;
    }
    let last: usize = hay_chars.len() - needle_chars.len();
    let mut at: usize = 0;
    loop
        invariant
            at <= last,
            last == hay_chars.len() - needle_chars.len(),
            needle_chars.len() <= hay_chars.len(),
            hay_chars@ == hay@,
            needle_chars@ == needle@,
            forall|j: int| 0 <= j < at ==> !occurs_at(hay@, needle@, j),
        decreases last - at,
    {
        if matches_at(&hay_chars, &needle_chars, at) {
            return true;
        }
        if at == last {
            return false;
        }
        at += 1;
    }
}

/// Whether two strings hold the same characters.
pub fn same_text(a: &str, b: &str) -> (same: bool)
    ensures
        same == (a@ == b@),
{
    let left = chars_of(a);
    let right = chars_of(b);
    if left.len() != right.len() {
        return false;
    }
    let mut i: usize = 0;
    while i < left.len()
        invariant
            i <= left.len(),
            left.len() == right.len(),
            left@ == a@,
            right@ == b@,
            forall|k: int| 0 <= k < i ==> left@[k] == right@[k],
        decreases left.len() - i,
    {
        if left[i] != right[i] {
            return false;
        }
        i += 1;
    }
    assert(left@ =~= right@);
    true
}

/// Whether the character `wanted` occurs in `s`.
pub fn contains_char(s: &str, wanted: char) -> (found: bool)
    ensures
        found == s@.contains(wanted),
{
    let mut it = s.chars();
    let ghost mut seen: int = 0;
    loop
        invariant
            0 <= seen <= s@.len(),
            it.remaining() == s@.skip(seen),
            !s@.take(seen).contains(wanted),
        decreases s@.len() - seen,
    {
        match it.next() {
            Some(c) => {
                assert(c == s@[seen]);
                if c == wanted {
                    return true;
                }
                assert(s@.take(seen + 1) == s@.take(seen).push(c));
                proof {
                    seen = seen + 1;
                }
            },
            None => {
                assert(s@.take(seen) == s@);
                return false;
            },
        }
    }
}

/// The decimal digit character for `d`, for `d` below ten.
pub open spec fn digit_char(d: nat) -> char {
    if d == 0 {
        '0'
    } else if d == 1 {
        '1'
    } else if d == 2 {
        '2'
    } else if d == 3 {
        '3'
    } else if d == 4 {
        '4'
    } else if d == 5 {
        '5'
    } else if d == 6 {
        '6'
    } else if d == 7 {
        '7'
    } else if d == 8 {
        '8'
    } else {
        '9'
    }
}

/// `n` written in base ten, most significant digit first, without leading
/// zeros; zero is written as the single digit `0`.
pub open spec fn decimal(n: nat) -> Seq<char>
    decreases n,
{
    if n < 10 {
        seq![digit_char(n)]
    } else {
        decimal(n / 10).push(digit_char(n % 10))
    }
}

/// Executable form of [`digit_char`].
fn digit_of(d: u64) -> (c: char)
    requires
        d < 10,
    ensures
        c == digit_char(d as nat),
{
    if d == 0 {
        '0'
    } else if d == 1 {
        '1'
    } else if d == 2 {
        '2'
    } else if d == 3 {
        '3'
    } else if d == 4 {
        '4'
    } else if d == 5 {
        '5'
    } else if d == 6 {
        '6'
    } else if d == 7 {
        '7'
    } else if d == 8 {
        '8'
    } else {
        '9'
    }
}

/// `n` rendered in base ten.
pub fn decimal_string(n: u64) -> (text: String)
    ensures
        text@ == decimal(n as nat),
{
    // Collect the digits least significant first, then emit them reversed.
    let mut digits: Vec<char> = Vec::new();
    let mut rest: u64 = n;
    while rest >= 10
        invariant
            decimal(rest as nat) + digits@.reverse() == decimal(n as nat),
        decreases rest,
    {
        let ghost before = digits@;
        let ghost prior = rest;
        digits.push(digit_of(rest % 10));
        rest = rest / 10;
        proof {
            let d = digit_char((prior % 10) as nat);
            assert(decimal(prior as nat) == decimal(rest as nat).push(d));
            assert(digits@.reverse() =~= seq![d] + before.reverse());
            assert(decimal(rest as nat) + digits@.reverse() =~= decimal(prior as nat)
                + before.reverse());
        }
    }
    let mut text = String::new();
    text.push(digit_of(rest));
    let mut left: usize = digits.len();
    while left > 0
        invariant
            left <= digits.len(),
            text@ == decimal(rest as nat) + digits@.reverse().take(digits.len() - left),
        decreases left,
    {
        left -= 1;
        text.push(digits[left]);
        assert(digits@.reverse().take(digits.len() - left) =~= digits@.reverse().take(
            digits.len() - left - 1,
        ).push(digits@[left as int]));
    }
    assert(digits@.reverse().take(digits.len() as int) =~= digits@.reverse());
    text
}

/// The characters with the Unicode `White_Space` property: the ones that
/// separate tokens.
pub open spec fn is_space(c: char) -> bool {
    let code = c as u32;
    ||| 0x09 <= code <= 0x0D
    ||| code == 0x20
    ||| code == 0x85
    ||| code == 0xA0
    ||| code == 0x1680
    ||| 0x2000 <= code <= 0x200A
    ||| code == 0x2028
    ||| code == 0x2029
    ||| code == 0x202F
    ||| code == 0x205F
    ||| code == 0x3000
}

/// Executable test for [`is_space`].
pub fn is_space_char(c: char) -> (space: bool)
    ensures
        space == is_space(c),
{
    let code: u32 = c as u32;
    (0x09 <= code && code <= 0x0D) || code == 0x20 || code == 0x85 || code == 0xA0 || code
        == 0x1680 || (0x2000 <= code && code <= 0x200A) || code == 0x2028 || code == 0x2029
        || code == 0x202F || code == 0x205F || code == 0x3000
}

/// The character classes that the line-oriented parsers scan for.
#[derive(Debug, Clone, Copy, PartialEq, Eq)]
pub enum CharClass {
    /// Whitespace: see [`is_space`].
    Blank,
    /// Anything but whitespace.
    Solid,
    /// Anything but the line feed that ends a line.
    InLine,
}

/// Whether `c` belongs to `class`.
pub open spec fn in_class(class: CharClass, c: char) -> bool {
    match class {
        CharClass::Blank => is_space(c),
        CharClass::Solid => !is_space(c),
        CharClass::InLine => c != '\n',
    }
}

/// The length of the longest prefix of `s` whose characters all belong to
/// `class`.
pub open spec fn run_len(class: CharClass, s: Seq<char>) -> int
    decreases s.len(),
{
    if s.len() == 0 || !in_class(class, s[0]) {
        0
    } else {
        1 + run_len(class, s.skip(1))
    }
}

/// [`run_len`] is the place where the run stops: everything before it is in
/// the class, and the character at it, if there is one, is not.
pub proof fn lemma_run_len(class: CharClass, s: Seq<char>)
    ensures
        0 <= run_len(class, s) <= s.len(),
        forall|i: int| 0 <= i < run_len(class, s) ==> in_class(class, s[i]),
        run_len(class, s) < s.len() ==> !in_class(class, s[run_len(class, s)]),
    decreases s.len(),
{
    if s.len() > 0 && in_class(class, s[0]) {
        let rest = s.skip(1);
        lemma_run_len(class, rest);
        assert forall|i: int| 0 <= i < run_len(class, s) implies in_class(class, s[i]) by {
            if i > 0 {
                assert(s[i] == rest[i - 1]);
            }
        }
        if run_len(class, s) < s.len() {
            assert(s[run_len(class, s)] == rest[run_len(class, rest)]);
        }
    }
}

/// Executable test for [`in_class`].
pub fn belongs_to(class: CharClass, c: char) -> (inside: bool)
    ensures
        inside == in_class(class, c),
{
    match class {
        CharClass::Blank => is_space_char(c),
        CharClass::Solid => !is_space_char(c),
        CharClass::InLine => c != '\n',
    }
}

/// Where the run of `class` that starts at `from` stops, looking no further
/// than `to`.
pub fn run_end(chars: &Vec<char>, from: usize, to: usize, class: CharClass) -> (stop: usize)
    requires
        from <= to <= chars.len(),
    ensures
        from <= stop <= to,
        stop - from == run_len(class, chars@.subrange(from as int, to as int)),
{
    let mut stop: usize = from;
    while stop < to && belongs_to(class, chars[stop])
        invariant
            from <= stop <= to <= chars.len(),
            run_len(class, chars@.subrange(from as int, to as int)) == (stop - from) + run_len(
                class,
                chars@.subrange(stop as int, to as int),
            ),
        decreases to - stop,
    {
        assert(chars@.subrange(stop as int, to as int)[0] == chars@[stop as int]);
        assert(chars@.subrange(stop as int, to as int).skip(1) =~= chars@.subrange(
            stop + 1,
            to as int,
        ));
        stop += 1;
    }
    assert(stop < to ==> chars@.subrange(stop as int, to as int)[0] == chars@[stop as int]);
    stop
}

/// The first whitespace-delimited token of `line`: the first maximal run of
/// characters that are not whitespace. It is empty exactly when the line is
/// blank.
pub open spec fn first_token(line: Seq<char>) -> Seq<char> {
    let rest = line.skip(run_len(CharClass::Blank, line));
    rest.take(run_len(CharClass::Solid, rest))
}

} // verus!
