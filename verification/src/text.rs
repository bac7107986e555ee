//! Text helpers shared by the asset-classification code: comparison, case
//! folding, substring search and file-extension parsing over `Seq<char>` views.

use vstd::prelude::*;

verus! {

/// The result of `str::to_lowercase` on a string with the given characters.
pub uninterp spec fn lowercase_of(s: Seq<char>) -> Seq<char>;

/// The result of `str::to_uppercase` on a string with the given characters.
pub uninterp spec fn uppercase_of(s: Seq<char>) -> Seq<char>;

/// `needle` occurs in `haystack` starting at position `at`.
pub open spec fn occurs_at(needle: Seq<char>, haystack: Seq<char>, at: int) -> bool {
    &&& 0 <= at
    &&& at + needle.len() <= haystack.len()
    &&& haystack.subrange(at, at + needle.len()) == needle
}

/// `needle` occurs somewhere in `haystack` as a contiguous run of characters.
pub open spec fn is_substring(needle: Seq<char>, haystack: Seq<char>) -> bool {
    exists|at: int| occurs_at(needle, haystack, at)
}

/// Position of the last occurrence of `c` in `s`, or `-1` when `c` does not occur.
pub open spec fn last_index_of(s: Seq<char>, c: char) -> int
    decreases s.len(),
{
    if s.len() == 0 {
        -1
    } else if s.last() == c {
        s.len() - 1
    } else {
        last_index_of(s.drop_last(), c)
    }
}

/// The final segment of a path: what stands behind its last `/`, or the
/// whole path where it has none. The `/` is the only separator on every
/// machine, and nothing is taken out of a path before it is read: a path
/// that ends in `/` has the empty segment as its final one, and a path that
/// ends in `/.` has the segment `.`.
pub open spec fn file_name_of(path: Seq<char>) -> Seq<char> {
    path.subrange(last_index_of(path, '/') + 1, path.len() as int)
}

/// The extension of a path: the text after the last `.` of its final segment.
/// A segment without a `.`, one whose only `.` is its first character, and the
/// segment `..` have no extension. So a path that ends in `/` has none,
/// whatever stands before the `/`: `a/b.png/` has no extension.
pub open spec fn extension_of(path: Seq<char>) -> Option<Seq<char>> {
    let name = file_name_of(path);
    let dot = last_index_of(name, '.');
    if dot <= 0 || name == seq!['.', '.'] {
        None
    } else {
        Some(name.subrange(dot + 1, name.len() as int))
    }
}

/// The stem of a path: its final segment without the extension and the `.`
/// before it. A segment without extension is its own stem, the segment `.`
/// among them; an empty segment and the segment `..` have none. So a path
/// that ends in `/` has no stem.
pub open spec fn stem_of(path: Seq<char>) -> Option<Seq<char>> {
    let name = file_name_of(path);
    let dot = last_index_of(name, '.');
    if name.len() == 0 || name == seq!['.', '.'] {
        None
    } else if dot <= 0 {
        Some(name)
    } else {
        Some(name.subrange(0, dot))
    }
}

/// The character of a decimal digit.
pub open spec fn digit_char(digit: nat) -> char {
    if digit == 0 {
        '0'
    } else if digit == 1 {
        '1'
    } else if digit == 2 {
        '2'
    } else if digit == 3 {
        '3'
    } else if digit == 4 {
        '4'
    } else if digit == 5 {
        '5'
    } else if digit == 6 {
        '6'
    } else if digit == 7 {
        '7'
    } else if digit == 8 {
        '8'
    } else {
        '9'
    }
}

/// A number written in decimal digits, without sign or leading zeros.
pub open spec fn decimal_text(n: nat) -> Seq<char>
    decreases n,
{
    if n < 10 {
        seq![digit_char(n)]
    } else {
        decimal_text(n / 10).push(digit_char(n % 10))
    }
}

/// Formats a number with `{}`, which for the unsigned integers writes the
/// decimal digits of the value.
#[verifier::external_body]
pub(crate) fn number_text(n: u64) -> (r: String)
    ensures
        r@ == decimal_text(n as nat),
{
    format!("{}", n)
}

/// Calls `str::eq`, which std documents as equality of the two strings'
/// contents; the contract states that over the character views.
#[verifier::external_body]
pub(crate) fn str_eq(a: &str, b: &str) -> (r: bool)
    ensures
        r == (a@ == b@),
{
    a == b
}

/// Calls `str::contains` with a string pattern, which std documents as
/// true exactly when the pattern matches a sub-slice of the string.
#[verifier::external_body]
pub(crate) fn str_contains(haystack: &str, needle: &str) -> (r: bool)
    ensures
        r == is_substring(needle@, haystack@),
{
    haystack.contains(needle)
}

/// Calls `str::to_lowercase`; the result is named by [`lowercase_of`], nothing
/// else is claimed of it.
#[verifier::external_body]
pub(crate) fn to_lowercase(s: &str) -> (r: String)
    ensures
        r@ == lowercase_of(s@),
{
    s.to_lowercase()
}

/// Calls `str::to_uppercase`; the result is named by [`uppercase_of`], nothing
/// else is claimed of it.
#[verifier::external_body]
pub(crate) fn to_uppercase(s: &str) -> (r: String)
    ensures
        r@ == uppercase_of(s@),
{
    s.to_uppercase()
}

/// The characters of a string, in order.
pub fn chars_of(s: &str) -> (v: Vec<char>)
    ensures
        v@ == s@,
{
    let mut v: Vec<char> = Vec::new();
    for c in it: s.chars()
        invariant
            it.seq() == s@,
            v@ == s@.subrange(0, it.index() as int),
    {
        v.push(c);
        assert(v@ =~= s@.subrange(0, it.index() + 1));
    }
    assert(v@ =~= s@);
    v
}

/// Extending a sequence by one character moves the last occurrence of `c`
/// to the new position exactly when the new character is `c`.
proof fn lemma_last_index_step(s: Seq<char>, n: int, c: char)
    requires
        0 <= n < s.len(),
    ensures
        last_index_of(s.subrange(0, n + 1), c) == if s[n] == c {
            n
        } else {
            last_index_of(s.subrange(0, n), c)
        },
{
    let t = s.subrange(0, n + 1);
    assert(t.last() == s[n]);
    assert(t.drop_last() =~= s.subrange(0, n));
}

/// Position of the last occurrence of `c` among the characters, if any.
pub fn find_last(chars: &Vec<char>, c: char) -> (r: Option<usize>)
    ensures
        match r {
            Some(i) => i == last_index_of(chars@, c) && i < chars.len(),
            None => last_index_of(chars@, c) == -1,
        },
{
    let mut found: Option<usize> = None;
    let mut i: usize = 0;
    while i < chars.len()
        invariant
            i <= chars.len(),
            match found {
                Some(j) => j == last_index_of(chars@.subrange(0, i as int), c) && j < i,
                None => last_index_of(chars@.subrange(0, i as int), c) == -1,
            },
        decreases chars.len() - i,
    {
        proof {
            lemma_last_index_step(chars@, i as int, c);
        }
        if chars[i] == c {
            found = Some(i);
        }
        i += 1;
    }
    assert(chars@.subrange(0, i as int) =~= chars@);
    found
}

/// A path that ends in `/` has an empty final segment, and with it neither
/// extension nor stem.
pub proof fn lemma_path_ending_in_slash(path: Seq<char>)
    requires
        path.len() > 0,
        path.last() == '/',
    ensures
        file_name_of(path) == Seq::<char>::empty(),
        extension_of(path) is None,
        stem_of(path) is None,
{
    assert(file_name_of(path) =~= Seq::<char>::empty());
}

/// The extension of a path, as [`extension_of`] defines it: the text after
/// the last `.` of what stands behind the last `/`. A path that ends in `/`
/// has none.
pub fn file_extension(path: &str) -> (r: Option<&str>)
    ensures
        match r {
            Some(ext) => extension_of(path@) == Some(ext@),
            None => extension_of(path@) is None,
        },
        path@.len() > 0 && path@.last() == '/' ==> r is None,
{
    proof {
        if path@.len() > 0 && path@.last() == '/' {
            lemma_path_ending_in_slash(path@);
        }
    }
    let chars = chars_of(path);
    let len = chars.len();
    let start: usize = match find_last(&chars, '/') {
        Some(i) => i + 1,
        None => 0,
    };
    let name = path.substring_char(start, len);
    let name_chars = chars_of(name);
    assert(name@ == file_name_of(path@));
    match find_last(&name_chars, '.') {
        Some(dot) => {
            let name_len = name_chars.len();
            let is_parent = name_len == 2 && name_chars[0] == '.' && name_chars[1] == '.';
            assert(is_parent == (name@ == seq!['.', '.'])) by {
                if is_parent {
                    assert(name@ =~= seq!['.', '.']);
                }
            }
            if dot == 0 || is_parent {
                None
            } else {
                Some(name.substring_char(dot + 1, name_len))
            }
        },
        None => None,
    }
}

/// The stem of a path, as [`stem_of`] defines it: what stands behind the
/// last `/`, without its extension. A path that ends in `/` has none.
pub fn file_stem(path: &str) -> (r: Option<&str>)
    ensures
        match r {
            Some(stem) => stem_of(path@) == Some(stem@),
            None => stem_of(path@) is None,
        },
        path@.len() > 0 && path@.last() == '/' ==> r is None,
{
    proof {
        if path@.len() > 0 && path@.last() == '/' {
            lemma_path_ending_in_slash(path@);
        }
    }
    let chars = chars_of(path);
    let len = chars.len();
    let start: usize = match find_last(&chars, '/') {
        Some(i) => i + 1,
        None => 0,
    };
    let name = path.substring_char(start, len);
    let name_chars = chars_of(name);
    let name_len = name_chars.len();
    assert(name@ == file_name_of(path@));
    let is_parent = name_len == 2 && name_chars[0] == '.' && name_chars[1] == '.';
    assert(is_parent == (name@ == seq!['.', '.'])) by {
        if is_parent {
            assert(name@ =~= seq!['.', '.']);
        }
    }
    if name_len == 0 || is_parent {
        return None;
    }
    match find_last(&name_chars, '.') {
        Some(dot) => {
            if dot == 0 {
                Some(name)
            } else {
                Some(name.substring_char(0, dot))
            }
        },
        None => Some(name),
    }
}

} // verus!
