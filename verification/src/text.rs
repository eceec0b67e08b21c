//! Small operations on text that the rest of the library shares.

use vstd::prelude::*;
use vstd::string::*;

verus! {

/// Whether two texts hold the same characters.
pub fn same_text(a: &str, b: &str) -> (r: bool)
    ensures
        r == (a@ == b@),
{
    let x = a.to_owned();
    let y = b.to_owned();
    x == y
}

/// Index of the last occurrence of `c` in `s`, or -1 when there is none.
pub open spec fn last_index_of(s: Seq<char>, c: char) -> int
    decreases s.len(),
{
    if s.len() == 0 {
        -1
    } else if s.last() == c {
        s.len() - 1
    } else {
        last_index_of(s.drop_last(), c)
    }
}

/// What follows the last occurrence of `c` in `s`; all of `s` when `c` does
/// not occur.
pub open spec fn after_last(s: Seq<char>, c: char) -> Seq<char> {
    s.subrange(last_index_of(s, c) + 1, s.len() as int)
}

/// The last occurrence of `c` lies in the text, holds `c`, and has no `c`
/// behind it.
pub proof fn lemma_last_index_of(s: Seq<char>, c: char)
    ensures
        -1 <= last_index_of(s, c) < s.len(),
        last_index_of(s, c) >= 0 ==> s[last_index_of(s, c)] == c,
        forall|j: int| last_index_of(s, c) < j < s.len() ==> s[j] != c,
    decreases s.len(),
{
    if s.len() > 0 && s.last() != c {
        let t = s.drop_last();
        lemma_last_index_of(t, c);
        assert forall|j: int| last_index_of(s, c) < j < s.len() implies s[j] != c by {
            if j < t.len() {
                assert(t[j] == s[j]);
            }
        }
        if last_index_of(t, c) >= 0 {
            assert(t[last_index_of(t, c)] == s[last_index_of(t, c)]);
        }
    }
}

/// What follows the last occurrence of `c` holds no `c`; and where `c`
/// occurs, the text is what comes before its last occurrence, `c`, and what
/// follows it.
pub proof fn lemma_after_last(s: Seq<char>, c: char)
    ensures
        !after_last(s, c).contains(c),
        last_index_of(s, c) < 0 ==> after_last(s, c) == s,
        last_index_of(s, c) >= 0 ==> s == before_last(s, c).push(c) + after_last(s, c),
{
    lemma_last_index_of(s, c);
    let k = last_index_of(s, c);
    let tail = after_last(s, c);
    if tail.contains(c) {
        let j = choose|j: int| 0 <= j < tail.len() && tail[j] == c;
        assert(s[k + 1 + j] == c);
    }
    if k < 0 {
        assert(tail =~= s);
    } else {
        assert(s =~= before_last(s, c).push(c) + tail);
    }
}

/// The last occurrence of `c` is the one place that holds `c` with no `c`
/// behind it.
pub proof fn lemma_last_index_is(s: Seq<char>, c: char, k: int)
    requires
        -1 <= k < s.len(),
        k >= 0 ==> s[k] == c,
        forall|j: int| k < j < s.len() ==> s[j] != c,
    ensures
        last_index_of(s, c) == k,
{
    lemma_last_index_of(s, c);
}

/// What comes before the last occurrence of `c` in `s`; nothing when `c`
/// does not occur.
pub open spec fn before_last(s: Seq<char>, c: char) -> Seq<char> {
    if last_index_of(s, c) < 0 {
        Seq::empty()
    } else {
        s.subrange(0, last_index_of(s, c))
    }
}

/// The place of the last occurrence of `c` in `s`, if it occurs.
pub fn find_last(s: &str, c: char) -> (r: Option<usize>)
    ensures
        match r {
            Some(i) => i == last_index_of(s@, c),
            None => last_index_of(s@, c) == -1,
        },
{
    let n = s.unicode_len();
    let mut i: usize = n;
    let mut found = false;
    while i > 0 && !found
        invariant
            i <= n,
            n == s@.len(),
            found ==> i > 0 && s@[i - 1] == c,
            forall|j: int| i <= j < n ==> s@[j] != c,
        decreases i - if found { 1int } else { 0int },
    {
        if s.get_char(i - 1) == c {
            found = true;
        } else {
            i = i - 1;
        }
    }
    proof {
        lemma_last_index_is(s@, c, i - 1);
    }
    if found {
        Some(i - 1)
    } else {
        None
    }
}

/// The extension of a file name, as a path has it: what follows the last
/// dot, where the name holds a dot that is not its first character.
pub open spec fn file_extension_of(name: Seq<char>) -> Option<Seq<char>> {
    if last_index_of(name, '.') > 0 {
        Some(after_last(name, '.'))
    } else {
        None
    }
}

/// The stem of a file name: what comes before the dot of its extension; all
/// of the name where it has no extension.
pub open spec fn file_stem_of(name: Seq<char>) -> Seq<char> {
    if last_index_of(name, '.') > 0 {
        before_last(name, '.')
    } else {
        name
    }
}

/// The extension of a file name, if it has one.
pub fn file_extension(name: &str) -> (r: Option<String>)
    ensures
        match r {
            Some(e) => file_extension_of(name@) == Some(e@),
            None => file_extension_of(name@) is None,
        },
{
    match find_last(name, '.') {
        Some(i) => {
            if i > 0 {
                proof {
                    lemma_last_index_of(name@, '.');
                }
                let n = name.unicode_len();
                Some(name.substring_char(i + 1, n).to_owned())
            } else {
                None
            }
        },
        None => None,
    }
}

/// The stem of a file name.
pub fn file_stem(name: &str) -> (r: String)
    ensures
        r@ == file_stem_of(name@),
{
    match find_last(name, '.') {
        Some(i) => {
            if i > 0 {
                proof {
                    lemma_last_index_of(name@, '.');
                }
                name.substring_char(0, i).to_owned()
            } else {
                name.to_owned()
            }
        },
        None => name.to_owned(),
    }
}

/// What follows the last occurrence of `c` in `s`.
pub fn suffix_after_last(s: &str, c: char) -> (r: String)
    ensures
        r@ == after_last(s@, c),
{
    let n = s.unicode_len();
    proof {
        lemma_last_index_of(s@, c);
    }
    match find_last(s, c) {
        Some(i) => s.substring_char(i + 1, n).to_owned(),
        None => {
            assert(s@.subrange(0, n as int) =~= s@);
            s.to_owned()
        },
    }
}

/// A copy of a list of texts, text for text.
pub fn copy_texts(v: &Vec<String>) -> (r: Vec<String>)
    ensures
        r.deep_view() == v.deep_view(),
{
    let mut r: Vec<String> = Vec::new();
    let mut i: usize = 0;
    while i < v.len()
        invariant
            i <= v.len(),
            r@.len() == i,
            forall|j: int| 0 <= j < i ==> r@[j]@ == v@[j]@,
        decreases v.len() - i,
    {
        r.push(v[i].clone());
        i = i + 1;
    }
    assert(r.deep_view() =~= v.deep_view());
    r
}

/// The letter in lower case, for the letters `A` to `Z`; any other character
/// as it is.
pub open spec fn lower_ascii(c: char) -> char {
    if 'A' <= c && c <= 'Z' {
        ((c as u32) + 32) as char
    } else {
        c
    }
}

/// Whether two texts are the same when no difference is made between the
/// upper and the lower case of the letters `a` to `z`. Digests in
/// hexadecimal are compared so.
pub open spec fn same_but_for_case(a: Seq<char>, b: Seq<char>) -> bool {
    a.len() == b.len() && forall|i: int|
        0 <= i < a.len() ==> lower_ascii(#[trigger] a[i]) == lower_ascii(b[i])
}

/// The letter in lower case, for the letters `A` to `Z`.
pub fn to_lower_ascii(c: char) -> (r: char)
    ensures
        r == lower_ascii(c),
{
    if 'A' <= c && c <= 'Z' {
        ((c as u8) + 32) as char
    } else {
        c
    }
}

/// Whether two texts are the same but for the case of their letters.
pub fn same_text_ignoring_case(a: &str, b: &str) -> (r: bool)
    ensures
        r == same_but_for_case(a@, b@),
{
    let n = a.unicode_len();
    if b.unicode_len() != n {
        return false;
    }
    let mut i: usize = 0;
    while i < n
        invariant
            i <= n,
            n == a@.len(),
            n == b@.len(),
            forall|j: int| 0 <= j < i ==> lower_ascii(#[trigger] a@[j]) == lower_ascii(b@[j]),
        decreases n - i,
    {
        if to_lower_ascii(a.get_char(i)) != to_lower_ascii(b.get_char(i)) {
            return false;
        }
        i = i + 1;
    }
    true
}

} // verus!
