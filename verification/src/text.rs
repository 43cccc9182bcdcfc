//! Normalization of caller-supplied names: surrounding whitespace is dropped
//! and ASCII letters are folded to lower case. Station and direction strings
//! are matched against their registered forms through this normalization and
//! nothing else.

use vstd::prelude::*;

verus! {

/// The whitespace characters that trimming removes.
pub open spec fn is_space(c: char) -> bool {
    c == ' ' || c == '\t' || c == '\n' || c == '\r'
}

/// An ASCII upper-case letter folded to lower case; any other character is
/// kept as it is.
pub open spec fn lower_char(c: char) -> char {
    match c {
        'A' => 'a',
        'B' => 'b',
        'C' => 'c',
        'D' => 'd',
        'E' => 'e',
        'F' => 'f',
        'G' => 'g',
        'H' => 'h',
        'I' => 'i',
        'J' => 'j',
        'K' => 'k',
        'L' => 'l',
        'M' => 'm',
        'N' => 'n',
        'O' => 'o',
        'P' => 'p',
        'Q' => 'q',
        'R' => 'r',
        'S' => 's',
        'T' => 't',
        'U' => 'u',
        'V' => 'v',
        'W' => 'w',
        'X' => 'x',
        'Y' => 'y',
        'Z' => 'z',
        _ => c,
    }
}

/// Every character of the sequence folded to lower case.
pub open spec fn lower_seq(s: Seq<char>) -> Seq<char> {
    s.map(|_i: int, c: char| lower_char(c))
}

/// The sequence without its leading whitespace.
pub open spec fn trim_front(s: Seq<char>) -> Seq<char>
    decreases s.len(),
{
    if s.len() > 0 && is_space(s[0]) {
        trim_front(s.drop_first())
    } else {
        s
    }
}

/// The sequence without its trailing whitespace.
pub open spec fn trim_back(s: Seq<char>) -> Seq<char>
    decreases s.len(),
{
    if s.len() > 0 && is_space(s.last()) {
        trim_back(s.drop_last())
    } else {
        s
    }
}

/// The sequence without whitespace at either end.
pub open spec fn trim(s: Seq<char>) -> Seq<char> {
    trim_back(trim_front(s))
}

/// The canonical form of a caller-supplied name: trimmed, then folded to
/// lower case.
pub open spec fn normalize(s: Seq<char>) -> Seq<char> {
    lower_seq(trim(s))
}

/// Dropping the first `i` characters of a sequence whose first `i`
/// characters are whitespace, and whose character `i` (if any) is not,
/// is exactly what `trim_front` does.
proof fn lemma_trim_front_skip(s: Seq<char>, i: int)
    requires
        0 <= i <= s.len(),
        forall|k: int| 0 <= k < i ==> is_space(s[k]),
        i < s.len() ==> !is_space(s[i]),
    ensures
        trim_front(s) == s.skip(i),
    decreases i,
{
    if i == 0 {
        assert(s.skip(0) =~= s);
    } else {
        assert(is_space(s[0]));
        lemma_trim_front_skip(s.drop_first(), i - 1);
        assert(s.drop_first().skip(i - 1) =~= s.skip(i));
    }
}

/// Keeping the first `j` characters of a sequence whose characters from `j`
/// on are whitespace, and whose character `j - 1` (if any) is not, is exactly
/// what `trim_back` does.
proof fn lemma_trim_back_take(s: Seq<char>, j: int)
    requires
        0 <= j <= s.len(),
        forall|k: int| j <= k < s.len() ==> is_space(s[k]),
        j > 0 ==> !is_space(s[j - 1]),
    ensures
        trim_back(s) == s.take(j),
    decreases s.len() - j,
{
    if j == s.len() {
        assert(s.take(j) =~= s);
    } else {
        assert(is_space(s.last()));
        lemma_trim_back_take(s.drop_last(), j);
        assert(s.drop_last().take(j) =~= s.take(j));
    }
}

/// Fold one character to lower case.
fn lower_char_x(c: char) -> (r: char)
    ensures
        r == lower_char(c),
{
    match c {
        'A' => 'a',
        'B' => 'b',
        'C' => 'c',
        'D' => 'd',
        'E' => 'e',
        'F' => 'f',
        'G' => 'g',
        'H' => 'h',
        'I' => 'i',
        'J' => 'j',
        'K' => 'k',
        'L' => 'l',
        'M' => 'm',
        'N' => 'n',
        'O' => 'o',
        'P' => 'p',
        'Q' => 'q',
        'R' => 'r',
        'S' => 's',
        'T' => 't',
        'U' => 'u',
        'V' => 'v',
        'W' => 'w',
        'X' => 'x',
        'Y' => 'y',
        'Z' => 'z',
        _ => c,
    }
}

/// Is the character whitespace that trimming removes?
fn is_space_x(c: char) -> (r: bool)
    ensures
        r == is_space(c),
{
    c == ' ' || c == '\t' || c == '\n' || c == '\r'
}

/// Does the raw name, once trimmed and folded to lower case, read exactly as
/// the registered form?
pub fn eq_normalized(raw: &str, registered: &str) -> (r: bool)
    ensures
        r == (normalize(raw@) == registered@),
{
    let n = raw.unicode_len();
    let mut i: usize = 0;
    while i < n && is_space_x(raw.get_char(i))
        invariant
            0 <= i <= n,
            n == raw@.len(),
            forall|k: int| 0 <= k < i ==> is_space(raw@[k]),
        decreases n - i,
    {
        i = i + 1;
    }
    let mut j: usize = n;
    while j > i && is_space_x(raw.get_char(j - 1))
        invariant
            i <= j <= n,
            n == raw@.len(),
            forall|k: int| 0 <= k < i ==> is_space(raw@[k]),
            forall|k: int| j <= k < n ==> is_space(raw@[k]),
        decreases j,
    {
        j = j - 1;
    }
    proof {
        lemma_trim_front_skip(raw@, i as int);
        if j == i {
            lemma_trim_back_take(raw@.skip(i as int), 0);
        } else {
            lemma_trim_back_take(raw@.skip(i as int), j - i);
        }
        assert(trim(raw@) =~= raw@.subrange(i as int, j as int));
    }
    let m = registered.unicode_len();
    if j - i != m {
        assert(normalize(raw@).len() != registered@.len());
        return false;
    }
    let mut k: usize = 0;
    while k < m
        invariant
            0 <= k <= m,
            m == registered@.len(),
            i + m == j <= n == raw@.len(),
            trim(raw@) == raw@.subrange(i as int, j as int),
            forall|t: int| 0 <= t < k ==> lower_char(raw@[i + t]) == registered@[t],
        decreases m - k,
    {
        if lower_char_x(raw.get_char(i + k)) != registered.get_char(k) {
            assert(normalize(raw@)[k as int] != registered@[k as int]);
            return false;
        }
        k = k + 1;
    }
    assert(normalize(raw@) =~= registered@);
    true
}

} // verus!
