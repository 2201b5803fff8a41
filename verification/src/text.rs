//! Text primitives: characters, whitespace, replacement, and bounded prefixes.
use vstd::prelude::*;
use vstd::utf8::encode_utf8;

verus! {

/// `String::push`: appends one character to the end of the string.
pub assume_specification[ String::push ](s: &mut String, ch: char)
    ensures
        final(s)@ == old(s)@.push(ch),
;

/// The characters with the Unicode property White_Space.
pub open spec fn is_white_space(c: char) -> bool {
    ||| '\u{9}' <= c <= '\u{d}'
    ||| c == '\u{20}'
    ||| c == '\u{85}'
    ||| c == '\u{a0}'
    ||| c == '\u{1680}'
    ||| '\u{2000}' <= c <= '\u{200a}'
    ||| c == '\u{2028}'
    ||| c == '\u{2029}'
    ||| c == '\u{202f}'
    ||| c == '\u{205f}'
    ||| c == '\u{3000}'
}

/// `s` without its leading whitespace.
pub open spec fn trimmed_start(s: Seq<char>) -> Seq<char>
    decreases s.len(),
{
    if s.len() > 0 && is_white_space(s[0]) {
        trimmed_start(s.drop_first())
    } else {
        s
    }
}

/// `s` without its trailing whitespace.
pub open spec fn trimmed_end(s: Seq<char>) -> Seq<char>
    decreases s.len(),
{
    if s.len() > 0 && is_white_space(s.last()) {
        trimmed_end(s.drop_last())
    } else {
        s
    }
}

/// `s` without its leading and trailing whitespace.
pub open spec fn trimmed(s: Seq<char>) -> Seq<char> {
    trimmed_end(trimmed_start(s))
}

/// `s` with every `from` replaced by `to`.
pub open spec fn replaced(s: Seq<char>, from: char, to: char) -> Seq<char> {
    s.map_values(
        |c: char|
            if c == from {
                to
            } else {
                c
            },
    )
}

/// `s` without the given ending, if it has it.
pub open spec fn without_suffix(s: Seq<char>, suffix: Seq<char>) -> Seq<char> {
    if suffix.is_suffix_of(s) {
        s.take(s.len() - suffix.len())
    } else {
        s
    }
}

/// The longest prefix of `s` whose UTF-8 encoding has at most `max` bytes.
pub open spec fn longest_prefix(s: Seq<char>, max: nat) -> Seq<char>
    decreases s.len(),
{
    if s.len() == 0 || encode_utf8(s).len() <= max {
        s
    } else {
        longest_prefix(s.drop_last(), max)
    }
}

/// The optional text that an optional string holds.
pub open spec fn text_of(s: Option<String>) -> Option<Seq<char>> {
    match s {
        Some(s) => Some(s@),
        None => None,
    }
}

/// The characters of `s`, in order.
pub fn chars_of(s: &str) -> (v: Vec<char>)
    ensures
        v@ == s@,
{
    let mut v: Vec<char> = Vec::new();
    for c in it: s.chars()
        invariant
            v@ == it.seq().take(it.index() as int),
    {
        v.push(c);
    }
    v
}

/// A string of the characters from `from` up to `to`.
fn string_of(v: &Vec<char>, from: usize, to: usize) -> (s: String)
    requires
        from <= to <= v@.len(),
    ensures
        s@ == v@.subrange(from as int, to as int),
{
    let mut s = String::new();
    for i in from..to
        invariant
            from <= to <= v@.len(),
            s@ == v@.subrange(from as int, i as int),
    {
        s.push(v[i]);
    }
    s
}

/// Whether two strings have the same characters.
pub fn same_text(a: &str, b: &str) -> (r: bool)
    ensures
        r == (a@ == b@),
{
    let u = chars_of(a);
    let v = chars_of(b);
    if u.len() != v.len() {
        return false;
    }
    for i in 0..u.len()
        invariant
            u@ == a@,
            v@ == b@,
            u@.len() == v@.len(),
            u@.take(i as int) == v@.take(i as int),
    {
        if u[i] != v[i] {
            return false;
        }
        assert(u@.take(i + 1) == u@.take(i as int).push(u@[i as int]));
        assert(v@.take(i + 1) == v@.take(i as int).push(v@[i as int]));
    }
    assert(u@.take(u@.len() as int) == u@);
    assert(v@.take(v@.len() as int) == v@);
    true
}

/// Whether a character is whitespace.
pub fn is_whitespace(c: char) -> (r: bool)
    ensures
        r == is_white_space(c),
{
    ('\u{9}' <= c && c <= '\u{d}') || c == '\u{20}' || c == '\u{85}' || c == '\u{a0}' || c
        == '\u{1680}' || ('\u{2000}' <= c && c <= '\u{200a}') || c == '\u{2028}' || c == '\u{2029}'
        || c == '\u{202f}' || c == '\u{205f}' || c == '\u{3000}'
}

/// Removes leading and trailing whitespace.
pub fn trim(s: &str) -> (r: String)
    ensures
        r@ == trimmed(s@),
{
    let v = chars_of(s);
    let mut from: usize = 0;
    assert(v@.skip(0) == v@);
    while from < v.len() && is_whitespace(v[from])
        invariant
            from <= v@.len(),
            trimmed_start(v@) == trimmed_start(v@.skip(from as int)),
        decreases v@.len() - from,
    {
        assert(v@.skip(from as int).drop_first() == v@.skip(from + 1));
        from += 1;
    }
    let ghost start = v@.skip(from as int);
    assert(trimmed_start(v@) == start);
    let mut to: usize = v.len();
    assert(v@.subrange(from as int, to as int) == start);
    while to > from && is_whitespace(v[to - 1])
        invariant
            from <= to <= v@.len(),
            trimmed_end(start) == trimmed_end(v@.subrange(from as int, to as int)),
        decreases to,
    {
        assert(v@.subrange(from as int, to as int).drop_last() == v@.subrange(
            from as int,
            to - 1,
        ));
        to -= 1;
    }
    string_of(&v, from, to)
}

/// Replaces every occurrence of a character by another.
pub fn replace_char(s: &str, from: char, to: char) -> (r: String)
    ensures
        r@ == replaced(s@, from, to),
{
    let v = chars_of(s);
    let mut r = String::new();
    for i in 0..v.len()
        invariant
            r@ == replaced(v@.take(i as int), from, to),
    {
        let c = v[i];
        r.push(
            if c == from {
                to
            } else {
                c
            },
        );
        assert(v@.take(i + 1) == v@.take(i as int).push(c));
    }
    assert(v@.take(v@.len() as int) == v@);
    r
}

/// Removes the given ending, if the text has it.
pub fn strip_suffix(s: &str, suffix: &str) -> (r: String)
    ensures
        r@ == without_suffix(s@, suffix@),
{
    let v = chars_of(s);
    let tail = chars_of(suffix);
    if tail.len() > v.len() {
        return string_of(&v, 0, v.len());
    }
    let cut: usize = v.len() - tail.len();
    let end = string_of(&v, cut, v.len());
    if same_text(end.as_str(), suffix) {
        string_of(&v, 0, cut)
    } else {
        string_of(&v, 0, v.len())
    }
}

/// The number of bytes that a character takes in UTF-8.
fn utf8_width(c: char) -> (w: usize)
    ensures
        w == vstd::utf8::encode_scalar(c as u32).len(),
        1 <= w <= 4,
{
    let n = c as u32;
    if n <= 0x7f {
        1
    } else if n <= 0x7ff {
        2
    } else if n <= 0xffff {
        3
    } else {
        4
    }
}

/// Cuts a text down to at most `max_bytes` bytes, on a character boundary.
pub fn truncate_for_log(s: &str, max_bytes: usize) -> (r: String)
    ensures
        r@ == longest_prefix(s@, max_bytes as nat),
{
    let v = chars_of(s);
    let mut used: usize = 0;
    for i in 0..v.len()
        invariant
            v@ == s@,
            used <= max_bytes,
            used == encode_utf8(v@.take(i as int)).len(),
    {
        let w = utf8_width(v[i]);
        proof {
            lemma_encode_push(v@.take(i as int), v@[i as int]);
            assert(v@.take(i + 1) == v@.take(i as int).push(v@[i as int]));
        }
        if w > max_bytes - used {
            proof {
                lemma_longest_prefix(v@, i as int, max_bytes as nat);
                assert(v@.take(i as int) == v@.subrange(0, i as int));
            }
            return string_of(&v, 0, i);
        }
        used += w;
    }
    assert(v@.take(v@.len() as int) == v@);
    string_of(&v, 0, v.len())
}

proof fn lemma_encode_push(s: Seq<char>, c: char)
    ensures
        encode_utf8(s.push(c)) == encode_utf8(s) + vstd::utf8::encode_scalar(c as u32),
    decreases s.len(),
{
    if s.len() == 0 {
        assert(s.push(c).drop_first() == Seq::<char>::empty());
        assert(encode_utf8(Seq::<char>::empty()) == Seq::<u8>::empty());
    } else {
        lemma_encode_push(s.drop_first(), c);
        assert(s.push(c).drop_first() == s.drop_first().push(c));
    }
}

proof fn lemma_longest_prefix(s: Seq<char>, n: int, max: nat)
    requires
        0 <= n < s.len(),
        encode_utf8(s.take(n)).len() <= max < encode_utf8(s.take(n + 1)).len(),
    ensures
        longest_prefix(s, max) == s.take(n),
        encode_utf8(s).len() > max,
    decreases s.len(),
{
    let t = s.drop_last();
    assert(s == t.push(s.last()));
    lemma_encode_push(t, s.last());
    if n + 1 == s.len() {
        assert(s.take(n + 1) == s);
        assert(s.take(n) == t);
        assert(longest_prefix(t, max) == t);
    } else {
        assert(t.take(n) == s.take(n));
        assert(t.take(n + 1) == s.take(n + 1));
        lemma_longest_prefix(t, n, max);
    }
}

/// The longest prefix within a byte budget is a prefix, keeps within the budget, and would
/// break it with one more character.
pub proof fn law_longest_prefix(s: Seq<char>, max: nat)
    ensures
        longest_prefix(s, max).is_prefix_of(s),
        encode_utf8(longest_prefix(s, max)).len() <= max,
        longest_prefix(s, max).len() < s.len() ==> encode_utf8(
            s.take((longest_prefix(s, max).len() + 1) as int),
        ).len() > max,
    decreases s.len(),
{
    if s.len() > 0 && encode_utf8(s).len() > max {
        let t = s.drop_last();
        law_longest_prefix(t, max);
        let n = longest_prefix(t, max).len() as int;
        if n == t.len() {
            assert(s.take(n + 1) == s);
        } else {
            assert(s.take(n + 1) == t.take(n + 1));
        }
    }
}

/// Trimming leaves no whitespace at either end, and trimming again changes nothing.
pub proof fn law_trimmed(s: Seq<char>)
    ensures
        trimmed(s).len() > 0 ==> !is_white_space(trimmed(s)[0]) && !is_white_space(
            trimmed(s).last(),
        ),
        trimmed(trimmed(s)) == trimmed(s),
{
    lemma_trimmed_start(s);
    lemma_trimmed_end(trimmed_start(s));
}

proof fn lemma_trimmed_start(s: Seq<char>)
    ensures
        trimmed_start(s).len() > 0 ==> !is_white_space(trimmed_start(s)[0]),
    decreases s.len(),
{
    if s.len() > 0 && is_white_space(s[0]) {
        lemma_trimmed_start(s.drop_first());
    }
}

proof fn lemma_trimmed_end(s: Seq<char>)
    ensures
        trimmed_end(s).len() > 0 ==> !is_white_space(trimmed_end(s).last()) && trimmed_end(s)[0]
            == s[0],
    decreases s.len(),
{
    if s.len() > 0 && is_white_space(s.last()) {
        lemma_trimmed_end(s.drop_last());
    }
}

/// What is left after trimming stood together in the text.
pub proof fn lemma_trimmed_within(s: Seq<char>)
    ensures
        exists|k: int|
            0 <= k <= s.len() - trimmed(s).len() && trimmed(s) == #[trigger] s.subrange(
                k,
                k + trimmed(s).len(),
            ),
{
    lemma_trimmed_start_within(s);
    let t = trimmed_start(s);
    lemma_trimmed_end_within(t);
    let k = s.len() - t.len();
    assert(trimmed(s) == s.subrange(k, k + trimmed(s).len()));
}

proof fn lemma_trimmed_start_within(s: Seq<char>)
    ensures
        trimmed_start(s).is_suffix_of(s),
    decreases s.len(),
{
    if s.len() > 0 && is_white_space(s[0]) {
        lemma_trimmed_start_within(s.drop_first());
        let t = trimmed_start(s);
        assert(t == s.subrange(s.len() - t.len(), s.len() as int));
    }
}

proof fn lemma_trimmed_end_within(s: Seq<char>)
    ensures
        trimmed_end(s).is_prefix_of(s),
    decreases s.len(),
{
    if s.len() > 0 && is_white_space(s.last()) {
        lemma_trimmed_end_within(s.drop_last());
    }
}

/// The whitespace characters by their code points.
pub proof fn law_white_space(c: char)
    ensures
        is_white_space(c) <==> ({
            let n = c as u32;
            ||| 9 <= n <= 13
            ||| n == 32 || n == 133 || n == 160 || n == 5760
            ||| 8192 <= n <= 8202
            ||| n == 8232 || n == 8233 || n == 8239 || n == 8287 || n == 12288
        }),
{
}

/// Trimming takes whitespace off both ends and nothing else: what it leaves stood together in
/// the text, begins and ends with no whitespace, and had only whitespace around it.
pub proof fn law_trimmed_splits(s: Seq<char>) -> (at: (int, int))
    ensures
        0 <= at.0 <= at.1 <= s.len(),
        trimmed(s) == s.subrange(at.0, at.1),
        forall|k: int| 0 <= k < at.0 ==> is_white_space(#[trigger] s[k]),
        forall|k: int| at.1 <= k < s.len() ==> is_white_space(#[trigger] s[k]),
        at.0 < at.1 ==> !is_white_space(s[at.0]) && !is_white_space(s[at.1 - 1]),
{
    let t = trimmed_start(s);
    let i = s.len() - t.len();
    let j = i + trimmed(s).len();
    lemma_trimmed_start_within(s);
    lemma_trimmed_end_within(t);
    lemma_cut_start(s);
    lemma_cut_end(t);
    law_trimmed(s);
    assert(t == s.skip(i));
    assert(trimmed(s) == s.subrange(i, j));
    assert forall|k: int| j <= k < s.len() implies is_white_space(#[trigger] s[k]) by {
        assert(s[k] == t[k - i]);
    }
    (i, j)
}

proof fn lemma_cut_start(s: Seq<char>)
    ensures
        trimmed_start(s).len() <= s.len(),
        forall|k: int|
            0 <= k < s.len() - trimmed_start(s).len() ==> is_white_space(#[trigger] s[k]),
    decreases s.len(),
{
    if s.len() > 0 && is_white_space(s[0]) {
        lemma_cut_start(s.drop_first());
        assert forall|k: int| 0 <= k < s.len() - trimmed_start(s).len() implies is_white_space(
            #[trigger] s[k],
        ) by {
            if k > 0 {
                assert(s[k] == s.drop_first()[k - 1]);
            }
        }
    }
}

proof fn lemma_cut_end(s: Seq<char>)
    ensures
        trimmed_end(s).len() <= s.len(),
        forall|k: int| trimmed_end(s).len() <= k < s.len() ==> is_white_space(#[trigger] s[k]),
    decreases s.len(),
{
    if s.len() > 0 && is_white_space(s.last()) {
        lemma_cut_end(s.drop_last());
        assert forall|k: int| trimmed_end(s).len() <= k < s.len() implies is_white_space(
            #[trigger] s[k],
        ) by {
            if k < s.len() - 1 {
                assert(s[k] == s.drop_last()[k]);
            }
        }
    }
}

/// Replacing a character changes every occurrence of it and no other character.
pub proof fn law_replaced(s: Seq<char>, from: char, to: char)
    ensures
        replaced(s, from, to).len() == s.len(),
        forall|i: int|
            0 <= i < s.len() && s[i] == from ==> #[trigger] replaced(s, from, to)[i] == to,
        forall|i: int|
            0 <= i < s.len() && s[i] != from ==> #[trigger] replaced(s, from, to)[i] == s[i],
{
}

/// An ending is taken off once where it is there, and a text without it stays as it is.
pub proof fn law_without_suffix(p: Seq<char>, suffix: Seq<char>)
    ensures
        without_suffix(p + suffix, suffix) == p,
        (forall|q: Seq<char>| p != #[trigger] (q + suffix)) ==> without_suffix(p, suffix) == p,
{
    let s = p + suffix;
    assert(suffix == s.subrange(s.len() - suffix.len(), s.len() as int));
    assert(s.take(p.len() as int) == p);
    if suffix.is_suffix_of(p) {
        let q = p.take(p.len() - suffix.len());
        assert(p == q + suffix);
    }
}

/// An optional string holds a text if it is there, and that text.
pub proof fn law_text_of(s: String)
    ensures
        text_of(Some(s)) == Some(s@),
        text_of(None) is None,
{
}

} // verus!
