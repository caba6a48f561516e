//! Texts as sequences of characters: white space, trimming and searching.

use vstd::prelude::*;

verus! {

/// Whether `c` is white space in the sense of Unicode (the characters with
/// the property `White_Space`).
pub open spec fn is_white_space(c: char) -> bool {
    let n = c as u32;
    ||| 0x09 <= n <= 0x0D
    ||| n == 0x20
    ||| n == 0x85
    ||| n == 0xA0
    ||| n == 0x1680
    ||| 0x2000 <= n <= 0x200A
    ||| n == 0x2028
    ||| n == 0x2029
    ||| n == 0x202F
    ||| n == 0x205F
    ||| n == 0x3000
}

/// Decides [`is_white_space`].
pub fn white_space(c: char) -> (r: bool)
    ensures
        r == is_white_space(c),
{
    let n: u32 = c as u32;
    (0x09 <= n && n <= 0x0D) || n == 0x20 || n == 0x85 || n == 0xA0 || n == 0x1680 || (0x2000 <= n
        && n <= 0x200A) || n == 0x2028 || n == 0x2029 || n == 0x202F || n == 0x205F || n == 0x3000
}

/// `String::push`: appends `c` to `text`.
#[verifier::external_body]
pub(crate) fn push_char(text: &mut String, c: char)
    ensures
        final(text)@ == old(text)@.push(c),
{
    text.push(c)
}

/// The characters of `text`, in order.
pub fn chars_of(text: &str) -> (out: Vec<char>)
    ensures
        out@ == text@,
{
    let mut out: Vec<char> = Vec::new();
    for c in it: text.chars()
        invariant
            out@ == text@.take(it.index() as int),
            it.seq() == text@,
    {
        out.push(c);
    }
    out
}

/// How many white-space characters `s` begins with.
pub open spec fn leading_white_space(s: Seq<char>) -> nat
    decreases s.len(),
{
    if s.len() > 0 && is_white_space(s[0]) {
        1 + leading_white_space(s.skip(1))
    } else {
        0
    }
}

/// How many white-space characters `s` ends with.
pub open spec fn trailing_white_space(s: Seq<char>) -> nat
    decreases s.len(),
{
    if s.len() > 0 && is_white_space(s.last()) {
        1 + trailing_white_space(s.drop_last())
    } else {
        0
    }
}

/// `s` without the white space at its start.
pub open spec fn trim_start(s: Seq<char>) -> Seq<char> {
    s.skip(leading_white_space(s) as int)
}

/// `s` without the white space at its end.
pub open spec fn trim_end(s: Seq<char>) -> Seq<char> {
    s.take(s.len() - trailing_white_space(s))
}

/// `s` without the white space at its start and at its end.
pub open spec fn trimmed(s: Seq<char>) -> Seq<char> {
    trim_end(trim_start(s))
}

/// A run of white space at the start of `s` that stops at another character,
/// or at the end, is the leading white space of `s`.
pub proof fn lemma_leading_white_space_is(s: Seq<char>, n: int)
    requires
        0 <= n <= s.len(),
        forall|i: int| 0 <= i < n ==> is_white_space(#[trigger] s[i]),
        n < s.len() ==> !is_white_space(s[n]),
    ensures
        leading_white_space(s) == n,
    decreases s.len(),
{
    if n > 0 {
        assert(is_white_space(s[0]));
        let rest = s.skip(1);
        assert forall|i: int| 0 <= i < n - 1 implies is_white_space(#[trigger] rest[i]) by {
            assert(rest[i] == s[i + 1]);
        }
        lemma_leading_white_space_is(rest, n - 1);
    }
}

/// A run of white space at the end of `s` that starts after another
/// character, or at the start, is the trailing white space of `s`.
pub proof fn lemma_trailing_white_space_is(s: Seq<char>, n: int)
    requires
        0 <= n <= s.len(),
        forall|i: int| s.len() - n <= i < s.len() ==> is_white_space(#[trigger] s[i]),
        n < s.len() ==> !is_white_space(s[s.len() - n - 1]),
    ensures
        trailing_white_space(s) == n,
    decreases s.len(),
{
    if n > 0 {
        assert(is_white_space(s[s.len() - 1]));
        let rest = s.drop_last();
        assert forall|i: int| rest.len() - (n - 1) <= i < rest.len() implies is_white_space(
            #[trigger] rest[i],
        ) by {
            assert(rest[i] == s[i]);
        }
        lemma_trailing_white_space_is(rest, n - 1);
    }
}

/// Where the trimmed text lies in `text`: `text` without the white space at
/// both ends is `text[start..end]`.
pub fn trim_bounds(text: &[char]) -> (bounds: (usize, usize))
    ensures
        bounds.0 <= bounds.1 <= text@.len(),
        trimmed(text@) == text@.subrange(bounds.0 as int, bounds.1 as int),
        bounds.0 == leading_white_space(text@),
{
    let len = text.len();
    let mut start: usize = 0;
    while start < len && white_space(text[start])
        invariant
            start <= len == text@.len(),
            forall|i: int| 0 <= i < start ==> is_white_space(#[trigger] text@[i]),
        decreases len - start,
    {
        start += 1;
    }
    let mut end: usize = len;
    while end > start && white_space(text[end - 1])
        invariant
            start <= end <= len == text@.len(),
            forall|i: int| end <= i < len ==> is_white_space(#[trigger] text@[i]),
        decreases end,
    {
        end -= 1;
    }
    proof {
        lemma_leading_white_space_is(text@, start as int);
        let rest = text@.skip(start as int);
        assert forall|i: int| rest.len() - (len - end) <= i < rest.len() implies is_white_space(
            #[trigger] rest[i],
        ) by {
            assert(rest[i] == text@[i + start]);
        }
        if len - end < rest.len() {
            assert(rest[rest.len() - (len - end) - 1] == text@[end - 1]);
        }
        lemma_trailing_white_space_is(rest, len - end);
        assert(rest.take(rest.len() - (len - end)) == text@.subrange(start as int, end as int));
    }
    (start, end)
}

/// How many characters stand in `s` before the first `stop`; the length of
/// `s` where there is none.
pub open spec fn distance_to(s: Seq<char>, stop: char) -> nat
    decreases s.len(),
{
    if s.len() == 0 || s[0] == stop {
        0
    } else {
        1 + distance_to(s.skip(1), stop)
    }
}

/// How many characters that are no white space `s` begins with.
pub open spec fn word_len(s: Seq<char>) -> nat
    decreases s.len(),
{
    if s.len() > 0 && !is_white_space(s[0]) {
        1 + word_len(s.skip(1))
    } else {
        0
    }
}

/// A run without `stop` at the start of `s` that ends at a `stop`, or at the
/// end of `s`, is the distance to `stop`.
pub proof fn lemma_distance_to_is(s: Seq<char>, stop: char, n: int)
    requires
        0 <= n <= s.len(),
        forall|i: int| 0 <= i < n ==> #[trigger] s[i] != stop,
        n < s.len() ==> s[n] == stop,
    ensures
        distance_to(s, stop) == n,
    decreases s.len(),
{
    if n > 0 {
        assert(s[0] != stop);
        let rest = s.skip(1);
        assert forall|i: int| 0 <= i < n - 1 implies #[trigger] rest[i] != stop by {
            assert(rest[i] == s[i + 1]);
        }
        lemma_distance_to_is(rest, stop, n - 1);
    }
}

/// A run without white space at the start of `s` that ends at white space,
/// or at the end of `s`, is the first word of `s`.
pub proof fn lemma_word_len_is(s: Seq<char>, n: int)
    requires
        0 <= n <= s.len(),
        forall|i: int| 0 <= i < n ==> !is_white_space(#[trigger] s[i]),
        n < s.len() ==> is_white_space(s[n]),
    ensures
        word_len(s) == n,
    decreases s.len(),
{
    if n > 0 {
        assert(!is_white_space(s[0]));
        let rest = s.skip(1);
        assert forall|i: int| 0 <= i < n - 1 implies !is_white_space(#[trigger] rest[i]) by {
            assert(rest[i] == s[i + 1]);
        }
        lemma_word_len_is(rest, n - 1);
    }
}

/// Computes [`distance_to`].
pub fn scan_to(text: &[char], stop: char) -> (n: usize)
    ensures
        n == distance_to(text@, stop),
        n <= text@.len(),
{
    let len = text.len();
    let mut n: usize = 0;
    while n < len && text[n] != stop
        invariant
            n <= len == text@.len(),
            forall|i: int| 0 <= i < n ==> #[trigger] text@[i] != stop,
        decreases len - n,
    {
        n += 1;
    }
    proof {
        lemma_distance_to_is(text@, stop, n as int);
    }
    n
}

/// Computes [`word_len`].
pub fn scan_word(text: &[char]) -> (n: usize)
    ensures
        n == word_len(text@),
        n <= text@.len(),
{
    let len = text.len();
    let mut n: usize = 0;
    while n < len && !white_space(text[n])
        invariant
            n <= len == text@.len(),
            forall|i: int| 0 <= i < n ==> !is_white_space(#[trigger] text@[i]),
        decreases len - n,
    {
        n += 1;
    }
    proof {
        lemma_word_len_is(text@, n as int);
    }
    n
}

/// The text made of `chars`.
pub fn string_of(chars: &[char]) -> (text: String)
    ensures
        text@ == chars@,
{
    let mut text = String::new();
    let len = chars.len();
    let mut i: usize = 0;
    while i < len
        invariant
            i <= len == chars@.len(),
            text@ == chars@.take(i as int),
        decreases len - i,
    {
        push_char(&mut text, chars[i]);
        i += 1;
        assert(chars@.take(i as int) == chars@.take(i - 1).push(chars@[i - 1]));
    }
    assert(chars@.take(len as int) == chars@);
    text
}

/// Whether `pattern` stands in `text` at position `at`.
pub open spec fn occurs_at(text: Seq<char>, pattern: Seq<char>, at: int) -> bool {
    &&& 0 <= at
    &&& at + pattern.len() <= text.len()
    &&& text.subrange(at, at + pattern.len()) == pattern
}

/// Whether `text` begins with `pattern`.
pub open spec fn begins_with(text: Seq<char>, pattern: Seq<char>) -> bool {
    occurs_at(text, pattern, 0)
}

/// Whether `at` is the first position of `text` at which `pattern` stands.
pub open spec fn first_occurrence(text: Seq<char>, pattern: Seq<char>, at: int) -> bool {
    &&& occurs_at(text, pattern, at)
    &&& forall|earlier: int| 0 <= earlier < at ==> !occurs_at(text, pattern, earlier)
}

/// Whether `pattern` stands anywhere in `text`.
pub open spec fn occurs(text: Seq<char>, pattern: Seq<char>) -> bool {
    exists|at: int| occurs_at(text, pattern, at)
}

/// The first position of `text` at which `pattern` stands; where there is
/// none, the length of `text`.
pub open spec fn position_of(text: Seq<char>, pattern: Seq<char>) -> int {
    if occurs(text, pattern) {
        choose|at: int| first_occurrence(text, pattern, at)
    } else {
        text.len() as int
    }
}

/// Decides [`occurs_at`].
pub fn matches_at(text: &[char], pattern: &[char], at: usize) -> (r: bool)
    ensures
        r == occurs_at(text@, pattern@, at as int),
{
    let n = pattern.len();
    let len = text.len();
    if at > len || n > len - at {
        return false;
    }
    let mut i: usize = 0;
    while i < n
        invariant
            i <= n == pattern@.len(),
            at + n <= len == text@.len(),
            forall|k: int| 0 <= k < i ==> text@[at + k] == pattern@[k],
        decreases n - i,
    {
        if text[at + i] != pattern[i] {
            assert(text@.subrange(at as int, at + n)[i as int] == text@[at + i]);
            return false;
        }
        i += 1;
    }
    assert(text@.subrange(at as int, at + n) =~= pattern@);
    true
}

/// Decides [`begins_with`].
pub fn starts_with(text: &[char], pattern: &[char]) -> (r: bool)
    ensures
        r == begins_with(text@, pattern@),
{
    matches_at(text, pattern, 0)
}

/// The first position at which `pattern` stands in `text`; `None` where it
/// stands nowhere.
pub fn find(text: &[char], pattern: &[char]) -> (r: Option<usize>)
    ensures
        r is Some <==> occurs(text@, pattern@),
        r matches Some(at) ==> first_occurrence(text@, pattern@, at as int) && at == position_of(
            text@,
            pattern@,
        ),
{
    let len = text.len();
    let mut at: usize = 0;
    loop
        invariant
            at <= len == text@.len(),
            forall|earlier: int| 0 <= earlier < at ==> !occurs_at(text@, pattern@, earlier),
        decreases len - at,
    {
        if matches_at(text, pattern, at) {
            proof {
                assert(first_occurrence(text@, pattern@, at as int));
                let chosen = position_of(text@, pattern@);
                assert(first_occurrence(text@, pattern@, chosen));
                // Two first occurrences cannot differ: each rules the other out.
                if chosen < at {
                    assert(!occurs_at(text@, pattern@, chosen));
                }
                if at < chosen {
                    assert(!occurs_at(text@, pattern@, at as int));
                }
            }
            return Some(at);
        }
        if at == len {
            return None;
        }
        at += 1;
    }
}

} // verus!
