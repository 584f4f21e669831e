//! Text as the browser and the keyboard rules count and compare it.

use vstd::prelude::*;

verus! {

/// `c` with an ASCII capital made small; every other character as it is.
pub open spec fn ascii_lower(c: char) -> char {
    if 'A' <= c && c <= 'Z' {
        ((c as u32) + 32) as char
    } else {
        c
    }
}

/// A text with its ASCII capitals made small.
pub open spec fn ascii_lowercase(s: Seq<char>) -> Seq<char> {
    s.map_values(|c: char| ascii_lower(c))
}

/// The number of UTF-16 code units that a character takes.
pub open spec fn utf16_width(c: char) -> nat {
    if c as u32 >= 0x1_0000 {
        2
    } else {
        1
    }
}

/// The number of UTF-16 code units that a text takes.
pub open spec fn utf16_len(s: Seq<char>) -> nat
    decreases s.len(),
{
    if s.len() == 0 {
        0
    } else {
        utf16_len(s.drop_last()) + utf16_width(s.last())
    }
}

/// The length of a text in UTF-16 code units, as far as 32 bits hold it.
pub open spec fn utf16_len_u32(s: Seq<char>) -> u32 {
    if utf16_len(s) <= u32::MAX {
        utf16_len(s) as u32
    } else {
        u32::MAX
    }
}

/// Whether two texts are the same.
pub fn same_text(a: &str, b: &str) -> (r: bool)
    ensures
        r == (a@ == b@),
{
    a.to_owned() == b.to_owned()
}

/// The characters of a text, ASCII capitals made small.
pub fn to_ascii_lowercase(s: &str) -> (r: Vec<char>)
    ensures
        r@ == ascii_lowercase(s@),
{
    let mut r: Vec<char> = Vec::new();
    for c in it: s.chars()
        invariant
            it.seq() == s@,
            r@.len() == it.index(),
            forall|i: int| 0 <= i < r@.len() ==> r@[i] == ascii_lower(s@[i]),
    {
        if 'A' <= c && c <= 'Z' {
            r.push(((c as u8) + 32) as char);
        } else {
            r.push(c);
        }
    }
    r
}

/// Whether the characters make up a word.
pub fn spells(chars: &Vec<char>, word: &str) -> (r: bool)
    ensures
        r == (chars@ == word@),
{
    let mut k: usize = 0;
    for c in it: word.chars()
        invariant
            it.seq() == word@,
            k == it.index(),
            k <= chars@.len(),
            forall|i: int| 0 <= i < k ==> chars@[i] == word@[i],
    {
        if k >= chars.len() || chars[k] != c {
            assert(k >= chars@.len() || chars@[k as int] != word@[k as int]);
            return false;
        }
        k = k + 1;
    }
    assert(k == chars@.len() ==> chars@ =~= word@);
    k == chars.len()
}

/// The length of a text in UTF-16 code units, as far as 32 bits hold it.
pub fn utf16_units(s: &str) -> (r: u32)
    ensures
        r == utf16_len_u32(s@),
{
    let mut r: u32 = 0;
    for c in it: s.chars()
        invariant
            it.seq() == s@,
            r == utf16_len_u32(s@.take(it.index() as int)),
    {
        proof {
            let k = it.index() as int;
            assert(s@.take(k + 1).drop_last() =~= s@.take(k));
            assert(s@.take(k + 1).last() == c);
        }
        let width: u32 = if (c as u32) >= 0x1_0000 {
            2
        } else {
            1
        };
        r = r.saturating_add(width);
    }
    assert(s@.take(s@.len() as int) =~= s@);
    r
}

} // verus!
