//! Text checks on the output of helper commands.

use vstd::prelude::*;

verus! {

/// Whether `c` has the Unicode White_Space property, which is what
/// `char::is_whitespace` and `str::trim` go by.
pub open spec fn is_unicode_whitespace(c: char) -> bool {
    let u = c as u32;
    (0x09 <= u <= 0x0d) || u == 0x20 || u == 0x85 || u == 0xa0 || u == 0x1680 || (0x2000 <= u <= 0x200a)
        || u == 0x2028 || u == 0x2029 || u == 0x202f || u == 0x205f || u == 0x3000
}

/// Decides `is_unicode_whitespace`.
pub fn char_is_whitespace(c: char) -> (ws: bool)
    ensures
        ws == is_unicode_whitespace(c),
{
    let u = c as u32;
    (0x09 <= u && u <= 0x0d) || u == 0x20 || u == 0x85 || u == 0xa0 || u == 0x1680 || (0x2000 <= u && u
        <= 0x200a) || u == 0x2028 || u == 0x2029 || u == 0x202f || u == 0x205f || u == 0x3000
}

/// Whether `text` with surrounding whitespace trimmed is exactly `c`, for a
/// character `c` that is not whitespace: `c` occurs once and every other
/// character is whitespace.
pub open spec fn trims_to_char(text: Seq<char>, c: char) -> bool {
    exists|i: int|
        0 <= i < text.len() && #[trigger] text[i] == c && forall|j: int|
            0 <= j < text.len() && j != i ==> is_unicode_whitespace(#[trigger] text[j])
}

/// The characters of `s`.
pub fn chars_of(s: &str) -> (chars: Vec<char>)
    ensures
        chars@ == s@,
{
    let n = s.unicode_len();
    let mut chars: Vec<char> = Vec::new();
    let mut i: usize = 0;
    while i < n
        invariant
            n == s@.len(),
            i <= n,
            chars@ == s@.subrange(0, i as int),
        decreases n - i,
    {
        chars.push(s.get_char(i));
        i = i + 1;
        assert(chars@ =~= s@.subrange(0, i as int));
    }
    assert(s@.subrange(0, n as int) =~= s@);
    chars
}

/// Whether `needle` occurs in `hay` at position `i`.
pub open spec fn occurs_at(hay: Seq<char>, needle: Seq<char>, i: int) -> bool {
    0 <= i && i + needle.len() <= hay.len() && hay.subrange(i, i + needle.len()) == needle
}

/// Whether `needle` occurs somewhere in `hay`.
pub open spec fn contains_text(hay: Seq<char>, needle: Seq<char>) -> bool {
    exists|i: int| #[trigger] occurs_at(hay, needle, i)
}

/// Decides `contains_text` on character vectors.
pub fn find_text(hay: &Vec<char>, needle: &Vec<char>) -> (found: bool)
    ensures
        found == contains_text(hay@, needle@),
{
    let n = hay.len();
    let m = needle.len();
    if m > n {
        assert forall|i: int| !occurs_at(hay@, needle@, i) by {}
        return false;
    }
    let mut i: usize = 0;
    while i <= n - m
        invariant
            n == hay@.len(),
            m == needle@.len(),
            m <= n,
            i <= n - m + 1,
            forall|k: int| 0 <= k < i ==> !#[trigger] occurs_at(hay@, needle@, k),
        decreases n - m + 1 - i,
    {
        let mut j: usize = 0;
        let mut same = true;
        while j < m
            invariant
                n == hay@.len(),
                m == needle@.len(),
                i + m <= n,
                j <= m,
                same == (forall|k: int| 0 <= k < j ==> hay@[i + k] == needle@[k]),
            decreases m - j,
        {
            if hay[i + j] != needle[j] {
                same = false;
            }
            j = j + 1;
        }
        if same {
            assert(hay@.subrange(i as int, i + m) =~= needle@);
            assert(occurs_at(hay@, needle@, i as int));
            return true;
        }
        assert(!occurs_at(hay@, needle@, i as int)) by {
            if hay@.subrange(i as int, i + m) =~= needle@ {
                assert(forall|k: int| 0 <= k < m ==> hay@[i + k] == #[trigger] hay@.subrange(i as int, i + m)[k]);
            }
        }
        i = i + 1;
    }
    assert forall|k: int| !occurs_at(hay@, needle@, k) by {
        if 0 <= k && k + m <= n {
            assert(k < i);
        }
    }
    false
}

/// Decides `trims_to_char` for the non-whitespace character `c`.
pub fn text_trims_to_char(text: &Vec<char>, c: char) -> (r: bool)
    requires
        !is_unicode_whitespace(c),
    ensures
        r == trims_to_char(text@, c),
{
    let n = text.len();
    let mut found: Option<usize> = None;
    let mut i: usize = 0;
    while i < n
        invariant
            n == text@.len(),
            i <= n,
            !is_unicode_whitespace(c),
            match found {
                None => forall|j: int| 0 <= j < i ==> is_unicode_whitespace(#[trigger] text@[j]),
                Some(p) => p < i && text@[p as int] == c && forall|j: int|
                    0 <= j < i && j != p ==> is_unicode_whitespace(#[trigger] text@[j]),
            },
        decreases n - i,
    {
        let ch = text[i];
        if !char_is_whitespace(ch) {
            match found {
                None => {
                    if ch == c {
                        found = Some(i);
                    } else {
                        assert(!trims_to_char(text@, c)) by {
                            if trims_to_char(text@, c) {
                                let k = choose|k: int| 0 <= k < text@.len() && #[trigger] text@[k] == c && forall|j: int|
                                    0 <= j < text@.len() && j != k ==> is_unicode_whitespace(#[trigger] text@[j]);
                                assert(k != i);
                                assert(is_unicode_whitespace(text@[i as int]));
                            }
                        }
                        return false;
                    }
                },
                Some(p) => {
                    assert(!trims_to_char(text@, c)) by {
                        if trims_to_char(text@, c) {
                            let k = choose|k: int| 0 <= k < text@.len() && #[trigger] text@[k] == c && forall|j: int|
                                0 <= j < text@.len() && j != k ==> is_unicode_whitespace(#[trigger] text@[j]);
                            if k == p as int {
                                assert(is_unicode_whitespace(text@[i as int]));
                            } else {
                                assert(is_unicode_whitespace(text@[p as int]));
                            }
                        }
                    }
                    return false;
                },
            }
        }
        i = i + 1;
    }
    match found {
        None => {
            assert(!trims_to_char(text@, c)) by {
                if trims_to_char(text@, c) {
                    let k = choose|k: int| 0 <= k < text@.len() && #[trigger] text@[k] == c && forall|j: int|
                        0 <= j < text@.len() && j != k ==> is_unicode_whitespace(#[trigger] text@[j]);
                    assert(is_unicode_whitespace(text@[k]));
                }
            }
            false
        },
        Some(p) => {
            assert(text@[p as int] == c);
            true
        },
    }
}

} // verus!
