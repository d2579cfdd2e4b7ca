//! Character-level helpers on text: the characters of a string, whether a
//! string is blank, and whether one string occurs inside another.
use vstd::prelude::*;

verus! {

/// Whether `c` carries the Unicode `White_Space` property, the property
/// `char::is_whitespace` tests: the 25 code points U+0009 to U+000D, U+0020,
/// U+0085, U+00A0, U+1680, U+2000 to U+200A, U+2028, U+2029, U+202F, U+205F
/// and U+3000.
pub open spec fn is_white_space(c: char) -> bool {
    let n = c as u32;
    ||| 0x09 <= n <= 0x0d
    ||| n == 0x20
    ||| n == 0x85
    ||| n == 0xa0
    ||| n == 0x1680
    ||| 0x2000 <= n <= 0x200a
    ||| n == 0x2028
    ||| n == 0x2029
    ||| n == 0x202f
    ||| n == 0x205f
    ||| n == 0x3000
}

/// Whether `c` is white space.
pub fn char_is_whitespace(c: char) -> (r: bool)
    ensures
        r == is_white_space(c),
{
    let n = c as u32;
    (0x09 <= n && n <= 0x0d) || n == 0x20 || n == 0x85 || n == 0xa0 || n == 0x1680 || (0x2000
        <= n && n <= 0x200a) || n == 0x2028 || n == 0x2029 || n == 0x202f || n == 0x205f || n
        == 0x3000
}

/// A string is blank when every one of its characters is white space
/// (so the empty string is blank).  This is what `str::trim` leaving
/// nothing behind means.
pub open spec fn blank(s: Seq<char>) -> bool {
    forall|i: int| 0 <= i < s.len() ==> is_white_space(#[trigger] s[i])
}

/// `needle` occurs in `haystack` starting at position `i`.
pub open spec fn occurs_at(haystack: Seq<char>, needle: Seq<char>, i: int) -> bool {
    &&& 0 <= i
    &&& i + needle.len() <= haystack.len()
    &&& haystack.subrange(i, i + needle.len()) == needle
}

/// `needle` occurs somewhere in `haystack` (the empty needle occurs in every
/// string).
pub open spec fn occurs_in(haystack: Seq<char>, needle: Seq<char>) -> bool {
    exists|i: int| occurs_at(haystack, needle, i)
}

/// The characters of `s`, in order.
pub fn chars_of(s: &str) -> (v: Vec<char>)
    ensures
        v@ == s@,
{
    let mut v: Vec<char> = Vec::new();
    for c in it: s.chars()
        invariant
            it.seq() == s@,
            v@ == it.seq().take(it.index() as int),
    {
        v.push(c);
    }
    v
}

/// Whether `s` holds nothing but white space.
pub fn is_blank(s: &str) -> (r: bool)
    ensures
        r == blank(s@),
{
    let cs = chars_of(s);
    let mut i: usize = 0;
    while i < cs.len()
        invariant
            cs@ == s@,
            i <= cs.len(),
            forall|j: int| 0 <= j < i ==> is_white_space(#[trigger] s@[j]),
        decreases cs.len() - i,
    {
        if !char_is_whitespace(cs[i]) {
            return false;
        }
        i = i + 1;
    }
    true
}

/// Whether `needle` occurs in `haystack`, as `str::contains` decides it.
pub fn contains_text(haystack: &str, needle: &str) -> (r: bool)
    ensures
        r == occurs_in(haystack@, needle@),
{
    let h = chars_of(haystack);
    let n = chars_of(needle);
    let mut start: usize = 0;
    while start <= h.len() && n.len() <= h.len() - start
        invariant
            h@ == haystack@,
            n@ == needle@,
            start <= h.len() + 1,
            forall|i: int| 0 <= i < start ==> !occurs_at(haystack@, needle@, i),
        decreases h.len() + 1 - start,
    {
        let mut k: usize = 0;
        let mut same = true;
        while k < n.len()
            invariant
                h@ == haystack@,
                n@ == needle@,
                start + n.len() <= h.len(),
                k <= n.len(),
                same ==> forall|j: int| 0 <= j < k ==> h@[start + j] == n@[j],
                !same ==> !occurs_at(haystack@, needle@, start as int),
                !same ==> n.len() > 0,
            decreases n.len() - k,
        {
            if h[start + k] != n[k] {
                same = false;
                assert(haystack@.subrange(start as int, start + needle@.len())[k as int]
                    != needle@[k as int]);
            }
            k = k + 1;
        }
        if same {
            assert(haystack@.subrange(start as int, start + needle@.len()) =~= needle@);
            assert(occurs_at(haystack@, needle@, start as int));
            return true;
        }
        start = start + 1;
    }
    assert forall|i: int| !occurs_at(haystack@, needle@, i) by {}
    false
}

/// `needle` occurs in `haystack` exactly when `haystack` is some text,
/// then `needle`, then some text.
pub proof fn lemma_occurs_means_split(haystack: Seq<char>, needle: Seq<char>)
    ensures
        occurs_in(haystack, needle) <==> exists|before: Seq<char>, after: Seq<char>|
            haystack == before + needle + after,
{
    if occurs_in(haystack, needle) {
        let i = choose|i: int| occurs_at(haystack, needle, i);
        let before = haystack.take(i);
        let after = haystack.skip(i + needle.len());
        assert(haystack =~= before + needle + after);
    }
    if exists|before: Seq<char>, after: Seq<char>| haystack == before + needle + after {
        let (before, after) = choose|before: Seq<char>, after: Seq<char>|
            haystack == before + needle + after;
        assert(haystack.subrange(before.len() as int, (before.len() + needle.len()) as int) =~= needle);
        assert(occurs_at(haystack, needle, before.len() as int));
    }
}

/// Two texts side by side are blank exactly when each of them is, the empty
/// text is blank, and a text holding a character that is not white space is
/// not blank.
pub proof fn lemma_blank_parts(s: Seq<char>, t: Seq<char>)
    ensures
        blank(s + t) <==> blank(s) && blank(t),
        blank(Seq::<char>::empty()),
        (exists|i: int| 0 <= i < s.len() && !is_white_space(s[i])) ==> !blank(s),
        blank(seq![' ', '\t', '\n', '\r']),
{
    if blank(s) && blank(t) {
        assert forall|i: int| 0 <= i < (s + t).len() implies is_white_space(#[trigger] (s + t)[i]) by {
            if i < s.len() {
                assert((s + t)[i] == s[i]);
            } else {
                assert((s + t)[i] == t[i - s.len()]);
            }
        }
    }
    if blank(s + t) {
        assert forall|i: int| 0 <= i < s.len() implies is_white_space(#[trigger] s[i]) by {
            assert((s + t)[i] == s[i]);
        }
        assert forall|i: int| 0 <= i < t.len() implies is_white_space(#[trigger] t[i]) by {
            assert((s + t)[s.len() + i] == t[i]);
        }
    }
}

} // verus!
