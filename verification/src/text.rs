//! Helpers for working with strings as sequences of characters.

use vstd::prelude::*;

verus! {

/// `String::push` appends one character to the end of the string.
pub assume_specification[ String::push ](s: &mut String, ch: char)
    ensures
        final(s)@ == old(s)@.push(ch),
;

/// Whether two string slices hold the same characters.
pub fn str_eq(a: &str, b: &str) -> (same: bool)
    ensures
        same == (a@ == b@),
{
    let x = a.as_bytes();
    let y = b.as_bytes();
    if x.len() != y.len() {
        return false;
    }
    let n = x.len();
    let mut i: usize = 0;
    while i < n
        invariant
            n == x@.len(),
            n == y@.len(),
            x@ == vstd::utf8::encode_utf8(a@),
            y@ == vstd::utf8::encode_utf8(b@),
            i <= n,
            forall|j: int| 0 <= j < i ==> x@[j] == y@[j],
        decreases n - i,
    {
        if x[i] != y[i] {
            return false;
        }
        i += 1;
    }
    proof {
        // Equal encodings decode to equal texts.
        assert(x@ =~= y@);
        vstd::utf8::encode_utf8_decode_utf8(a@);
        vstd::utf8::encode_utf8_decode_utf8(b@);
    }
    true
}

/// The characters of `s`, in order.
pub fn to_chars(s: &str) -> (chars: Vec<char>)
    ensures
        chars@ == s@,
{
    let mut chars: Vec<char> = Vec::new();
    for c in it: s.chars()
        invariant
            chars@ == s@.take(it.index() as int),
            it.seq() == s@,
    {
        chars.push(c);
    }
    chars
}

/// The string made of `chars[from..to]`.
pub fn from_chars(chars: &[char], from: usize, to: usize) -> (s: String)
    requires
        from <= to <= chars@.len(),
    ensures
        s@ == chars@.subrange(from as int, to as int),
{
    let mut s = String::new();
    let mut i: usize = from;
    while i < to
        invariant
            from <= i <= to <= chars@.len(),
            s@ == chars@.subrange(from as int, i as int),
        decreases to - i,
    {
        s.push(chars[i]);
        i += 1;
    }
    s
}

/// An owned copy of `s`.
pub fn owned(s: &str) -> (r: String)
    ensures
        r@ == s@,
{
    s.to_owned()
}

/// Whether `tag` stands in `s` at position `at`.
pub open spec fn has_tag(s: Seq<char>, at: int, tag: Seq<char>) -> bool {
    0 <= at && at + tag.len() <= s.len() && s.subrange(at, at + tag.len()) == tag
}

/// The number of characters at the head of `s` that differ from `stop`.
pub open spec fn run_until(s: Seq<char>, stop: char) -> nat
    decreases s.len(),
{
    if s.len() > 0 && s[0] != stop {
        1 + run_until(s.drop_first(), stop)
    } else {
        0
    }
}

/// A run ends at the first `stop`, or at the end of the text.
pub proof fn lemma_run_until(s: Seq<char>, stop: char)
    ensures
        run_until(s, stop) <= s.len(),
        forall|i: int| 0 <= i < run_until(s, stop) ==> s[i] != stop,
        run_until(s, stop) < s.len() ==> s[run_until(s, stop) as int] == stop,
    decreases s.len(),
{
    if s.len() > 0 && s[0] != stop {
        let rest = s.drop_first();
        lemma_run_until(rest, stop);
        assert forall|i: int| 0 <= i < run_until(s, stop) implies s[i] != stop by {
            if i > 0 {
                assert(s[i] == rest[i - 1]);
            }
        }
    }
}

/// Checks that `tag` stands at position `from` and returns the position after it.
pub fn take_tag(chars: &[char], from: usize, tag: &str) -> (r: Option<usize>)
    requires
        from <= chars@.len(),
    ensures
        match r {
            Some(next) => has_tag(chars@, from as int, tag@) && next == from + tag@.len(),
            None => !has_tag(chars@, from as int, tag@),
        },
{
    let wanted = to_chars(tag);
    let n = wanted.len();
    let total = chars.len();
    if total - from < n {
        return None;
    }
    let mut i: usize = 0;
    while i < n
        invariant
            n == wanted@.len(),
            wanted@ == tag@,
            total == chars@.len(),
            from + n <= total,
            i <= n,
            forall|j: int| 0 <= j < i ==> chars@[from + j] == wanted@[j],
        decreases n - i,
    {
        if chars[from + i] != wanted[i] {
            return None;
        }
        i += 1;
    }
    assert(chars@.subrange(from as int, from + n) =~= wanted@);
    Some(from + n)
}

/// The position of the first `stop` at or after `from`, or the end of the text.
pub fn skip_until(chars: &[char], from: usize, stop: char) -> (to: usize)
    requires
        from <= chars@.len(),
    ensures
        to == from + run_until(chars@.skip(from as int), stop),
        from <= to <= chars@.len(),
        to < chars@.len() ==> chars@[to as int] == stop,
        forall|i: int| from <= i < to ==> chars@[i] != stop,
{
    let mut i: usize = from;
    while i < chars.len() && chars[i] != stop
        invariant
            from <= i <= chars@.len(),
            run_until(chars@.skip(from as int), stop) == (i - from) + run_until(
                chars@.skip(i as int),
                stop,
            ),
            forall|j: int| from <= j < i ==> chars@[j] != stop,
        decreases chars@.len() - i,
    {
        assert(chars@.skip(i as int).drop_first() =~= chars@.skip(i + 1));
        i += 1;
    }
    i
}

/// The last position at or before `i` at which `tag` stands in `s`.
pub open spec fn last_tag_before(s: Seq<char>, tag: Seq<char>, i: int) -> Option<int>
    decreases i + 1,
{
    if i < 0 {
        None
    } else if has_tag(s, i, tag) {
        Some(i)
    } else {
        last_tag_before(s, tag, i - 1)
    }
}

/// The last position at which `tag` stands in `s`.
pub open spec fn last_tag(s: Seq<char>, tag: Seq<char>) -> Option<int> {
    last_tag_before(s, tag, s.len() - tag.len())
}

/// Whether `wanted` stands in `chars` at position `at`.
pub fn tag_at(chars: &[char], at: usize, wanted: &[char]) -> (b: bool)
    requires
        at <= chars@.len(),
    ensures
        b == has_tag(chars@, at as int, wanted@),
{
    let n = wanted.len();
    let total = chars.len();
    if total - at < n {
        return false;
    }
    let mut i: usize = 0;
    while i < n
        invariant
            n == wanted@.len(),
            total == chars@.len(),
            at + n <= total,
            i <= n,
            forall|j: int| 0 <= j < i ==> chars@[at + j] == wanted@[j],
        decreases n - i,
    {
        if chars[at + i] != wanted[i] {
            return false;
        }
        i += 1;
    }
    assert(chars@.subrange(at as int, at + n) =~= wanted@);
    true
}

/// The last position at which `tag` stands in `chars`.
pub fn rfind_tag(chars: &[char], tag: &str) -> (r: Option<usize>)
    ensures
        match r {
            Some(at) => last_tag(chars@, tag@) == Some(at as int) && at + tag@.len()
                <= chars@.len(),
            None => last_tag(chars@, tag@) is None,
        },
{
    let wanted = to_chars(tag);
    if chars.len() < wanted.len() {
        return None;
    }
    let start = chars.len() - wanted.len();
    let mut i: usize = start;
    loop
        invariant
            wanted@ == tag@,
            i <= start,
            start == chars@.len() - wanted@.len(),
            last_tag(chars@, tag@) == last_tag_before(chars@, tag@, i as int),
        decreases i,
    {
        if tag_at(chars, i, wanted.as_slice()) {
            return Some(i);
        }
        if i == 0 {
            assert(last_tag_before(chars@, tag@, -1) is None);
            return None;
        }
        i -= 1;
    }
}

/// The UTF-8 length of `chars[from..to]` in bytes.
pub fn utf8_len(chars: &[char], from: usize, to: usize) -> (n: usize)
    requires
        from <= to <= chars@.len(),
    ensures
        n == vstd::utf8::encode_utf8(chars@.subrange(from as int, to as int)).len(),
{
    let text = from_chars(chars, from, to);
    text.as_str().as_bytes().len()
}

} // verus!
