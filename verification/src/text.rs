//! Character-level helpers on path and file-name text.
//!
//! Paths travel through this crate as plain strings; their meaning in
//! contracts is the sequence of their characters.

use vstd::prelude::*;
use vstd::string::*;

verus! {

/// Whether `c` is white space in the sense of `char::is_whitespace`.
pub uninterp spec fn is_whitespace(c: char) -> bool;

/// The text that lossy UTF-8 decoding makes of `bytes`.
pub uninterp spec fn lossy_text(bytes: Seq<u8>) -> Seq<char>;

/// `char::is_whitespace` of the standard library. Trusted: the result is
/// the white-space property of `c`, a function of the character alone;
/// the space, the line feed and the no-break space have the property, and
/// the ideograph U+8D8A has it not. These four are the characters that the
/// documentation of the function gives.
#[verifier::external_body]
pub(crate) fn char_is_whitespace(c: char) -> (r: bool)
    ensures
        r == is_whitespace(c),
        c == ' ' || c == '\n' || c == '\u{a0}' ==> r,
        c == '\u{8d8a}' ==> !r,
{
    c.is_whitespace()
}

/// `String::from_utf8_lossy` of the standard library. Trusted: the result
/// is the lossy decoding of the bytes, a function of the bytes alone.
#[verifier::external_body]
pub(crate) fn decode_lossy(bytes: &Vec<u8>) -> (r: String)
    ensures
        r@ == lossy_text(bytes@),
{
    String::from_utf8_lossy(bytes).into_owned()
}

/// `s` without its leading white space.
pub open spec fn skip_blank(s: Seq<char>) -> Seq<char>
    decreases s.len(),
{
    if s.len() > 0 && is_whitespace(s.first()) {
        skip_blank(s.drop_first())
    } else {
        s
    }
}

/// `s` without its trailing white space.
pub open spec fn drop_blank_end(s: Seq<char>) -> Seq<char>
    decreases s.len(),
{
    if s.len() > 0 && is_whitespace(s.last()) {
        drop_blank_end(s.drop_last())
    } else {
        s
    }
}

/// `s` without leading and trailing white space.
pub open spec fn trimmed(s: Seq<char>) -> Seq<char> {
    drop_blank_end(skip_blank(s))
}

/// `needle` stands in `s` at position `i`.
pub open spec fn occurs_at(s: Seq<char>, needle: Seq<char>, i: int) -> bool {
    &&& 0 <= i
    &&& i + needle.len() <= s.len()
    &&& s.subrange(i, i + needle.len()) == needle
}

/// `needle` stands somewhere in `s`.
pub open spec fn occurs_in(s: Seq<char>, needle: Seq<char>) -> bool {
    exists|i: int| occurs_at(s, needle, i)
}

/// `s` with `suffix` taken off its end, where it ends with it.
pub open spec fn without_suffix(s: Seq<char>, suffix: Seq<char>) -> Option<Seq<char>> {
    if suffix.is_suffix_of(s) {
        Some(s.subrange(0, s.len() - suffix.len()))
    } else {
        None
    }
}

/// The file name `name` has the extension `ext`: a dot that is not the
/// name's first character, followed by `ext` and nothing else, where `ext`
/// itself holds no dot. The name `..` has no extension.
pub open spec fn has_extension(name: Seq<char>, ext: Seq<char>) -> bool {
    let dot = name.len() - ext.len() - 1;
    &&& !ext.contains('.')
    &&& dot > 0
    &&& name[dot] == '.'
    &&& name.subrange(dot + 1, name.len() as int) == ext
    &&& name != seq!['.', '.']
}

/// Whether `c` is white space. The space, the line feed and the no-break
/// space are; the ideograph U+8D8A is not.
pub fn is_blank(c: char) -> (r: bool)
    ensures
        r == is_whitespace(c),
        c == ' ' || c == '\n' || c == '\u{a0}' ==> r,
        c == '\u{8d8a}' ==> !r,
{
    char_is_whitespace(c)
}

/// The characters of `s`, in order, as a vector with constant-time indexing.
pub fn chars_of(s: &str) -> (v: Vec<char>)
    ensures
        v@ == s@,
{
    let mut v: Vec<char> = Vec::new();
    for c in it: s.chars()
        invariant
            v@ == it.seq().take(it.index() as int),
            it.seq() == s@,
    {
        v.push(c);
    }
    v
}

/// The concatenation of `head` and `tail`.
pub fn join(head: &str, tail: &str) -> (r: String)
    ensures
        r@ == head@ + tail@,
{
    let mut r = head.to_owned();
    r.append(tail);
    r
}

/// Whether `needle` stands in `s` at position `at`.
fn matches_at(s: &Vec<char>, needle: &Vec<char>, at: usize) -> (r: bool)
    requires
        at + needle.len() <= s.len(),
    ensures
        r == occurs_at(s@, needle@, at as int),
{
    let mut k: usize = 0;
    while k < needle.len()
        invariant
            k <= needle.len(),
            at + needle.len() <= s.len(),
            forall|j: int| 0 <= j < k ==> s@[at + j] == needle@[j],
        decreases needle.len() - k,
    {
        if s[at + k] != needle[k] {
            proof {
                let window = s@.subrange(at as int, at + needle.len());
                assert(window[k as int] == s@[at + k]);
            }
            return false;
        }
        k += 1;
    }
    assert(s@.subrange(at as int, at + needle.len()) =~= needle@);
    true
}

/// Whether the two texts hold the same characters.
pub fn same_text(a: &str, b: &str) -> (r: bool)
    ensures
        r == (a@ == b@),
{
    let x = chars_of(a);
    let y = chars_of(b);
    if x.len() != y.len() {
        return false;
    }
    let r = matches_at(&x, &y, 0);
    assert(x@.subrange(0, x.len() as int) =~= x@);
    r
}

/// Whether `s` begins with `prefix`.
pub fn starts_with(s: &str, prefix: &str) -> (r: bool)
    ensures
        r == prefix@.is_prefix_of(s@),
{
    let x = chars_of(s);
    let p = chars_of(prefix);
    if p.len() > x.len() {
        return false;
    }
    matches_at(&x, &p, 0)
}

/// Whether `s` ends with `suffix`.
pub fn ends_with(s: &str, suffix: &str) -> (r: bool)
    ensures
        r == suffix@.is_suffix_of(s@),
{
    let x = chars_of(s);
    let p = chars_of(suffix);
    if p.len() > x.len() {
        return false;
    }
    matches_at(&x, &p, x.len() - p.len())
}

/// Whether `needle` stands somewhere in `s`.
pub fn contains(s: &str, needle: &str) -> (r: bool)
    ensures
        r == occurs_in(s@, needle@),
{
    let x = chars_of(s);
    let p = chars_of(needle);
    if p.len() > x.len() {
        assert(forall|i: int| !occurs_at(x@, p@, i));
        return false;
    }
    if p.len() == 0 {
        assert(x@.subrange(0, 0) =~= p@);
        assert(occurs_at(x@, p@, 0));
        return true;
    }
    let last: usize = x.len() - p.len();
    let mut at: usize = 0;
    while at <= last
        invariant
            x@ == s@,
            p@ == needle@,
            0 < p.len() <= x.len(),
            last == x.len() - p.len(),
            at <= last + 1,
            forall|i: int| 0 <= i < at ==> !occurs_at(x@, p@, i),
        decreases last + 1 - at,
    {
        if matches_at(&x, &p, at) {
            assert(occurs_at(x@, p@, at as int));
            return true;
        }
        at += 1;
    }
    assert(forall|i: int| !occurs_at(x@, p@, i));
    false
}

/// `s` with `suffix` taken off its end, or `None` where `s` does not end
/// with it.
pub fn strip_suffix(s: &str, suffix: &str) -> (r: Option<String>)
    ensures
        r is Some == without_suffix(s@, suffix@) is Some,
        r matches Some(t) ==> Some(t@) == without_suffix(s@, suffix@),
{
    if ends_with(s, suffix) {
        let n = s.unicode_len();
        let m = suffix.unicode_len();
        Some(s.substring_char(0, n - m).to_owned())
    } else {
        None
    }
}

/// Whether the file name `name` has the extension `ext`.
pub fn name_has_extension(name: &str, ext: &str) -> (r: bool)
    ensures
        r == has_extension(name@, ext@),
{
    let x = chars_of(name);
    let e = chars_of(ext);
    let mut k: usize = 0;
    while k < e.len()
        invariant
            e@ == ext@,
            k <= e.len(),
            forall|j: int| 0 <= j < k ==> e@[j] != '.',
        decreases e.len() - k,
    {
        if e[k] == '.' {
            assert(e@[k as int] == '.');
            return false;
        }
        k += 1;
    }
    if x.len() < 2 || x.len() - 2 < e.len() {
        return false;
    }
    let dot: usize = x.len() - e.len() - 1;
    if x[dot] != '.' {
        return false;
    }
    if x.len() == 2 && x[0] == '.' {
        assert(x@ =~= seq!['.', '.']);
        return false;
    }
    matches_at(&x, &e, dot + 1)
}

/// Unfolds `skip_blank` and `drop_blank_end` by one character.
proof fn lemma_blank_step(s: Seq<char>, a: int, b: int)
    requires
        0 <= a < b <= s.len(),
    ensures
        is_whitespace(s[a]) ==> skip_blank(s.subrange(a, b)) == skip_blank(s.subrange(a + 1, b)),
        !is_whitespace(s[a]) ==> skip_blank(s.subrange(a, b)) == s.subrange(a, b),
        is_whitespace(s[b - 1]) ==> drop_blank_end(s.subrange(a, b)) == drop_blank_end(
            s.subrange(a, b - 1),
        ),
        !is_whitespace(s[b - 1]) ==> drop_blank_end(s.subrange(a, b)) == s.subrange(a, b),
{
    let w = s.subrange(a, b);
    assert(w.first() == s[a]);
    assert(w.last() == s[b - 1]);
    assert(w.drop_first() =~= s.subrange(a + 1, b));
    assert(w.drop_last() =~= s.subrange(a, b - 1));
}

/// `s` without leading and trailing white space.
pub fn trim(s: &str) -> (r: String)
    ensures
        r@ == trimmed(s@),
{
    let x = chars_of(s);
    let n: usize = x.len();
    let mut a: usize = 0;
    assert(x@.subrange(0, n as int) =~= x@);
    while a < n && is_blank(x[a])
        invariant
            a <= n,
            n == x.len(),
            skip_blank(x@) == skip_blank(x@.subrange(a as int, n as int)),
        decreases n - a,
    {
        proof {
            lemma_blank_step(x@, a as int, n as int);
        }
        a += 1;
    }
    proof {
        if a < n {
            lemma_blank_step(x@, a as int, n as int);
        }
    }
    assert(skip_blank(x@) == x@.subrange(a as int, n as int));
    let mut b: usize = n;
    while b > a && is_blank(x[b - 1])
        invariant
            a <= b <= n,
            n == x.len(),
            trimmed(x@) == drop_blank_end(x@.subrange(a as int, b as int)),
        decreases b - a,
    {
        proof {
            lemma_blank_step(x@, a as int, b as int);
        }
        b -= 1;
    }
    proof {
        if b > a {
            lemma_blank_step(x@, a as int, b as int);
        }
    }
    s.substring_char(a, b).to_owned()
}

} // verus!
