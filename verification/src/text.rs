//! Strings as sequences of characters: the few operations on text that the rest
//! of the crate needs, each with its meaning on `Seq<char>`.

use vstd::prelude::*;
use vstd::string::*;
use vstd::utf8::encode_utf8;
use vstd::utf8::encode_utf8_decode_utf8;

verus! {

/// Whether two string slices hold the same characters.
pub(crate) fn same_text(a: &str, b: &str) -> (same: bool)
    ensures
        same == (a@ == b@),
{
    let left = a.as_bytes();
    let right = b.as_bytes();
    proof {
        encode_utf8_decode_utf8(a@);
        encode_utf8_decode_utf8(b@);
    }
    if left.len() != right.len() {
        return false;
    }
    let mut i: usize = 0;
    while i < left.len()
        invariant
            i <= left.len(),
            left.len() == right.len(),
            left@ == encode_utf8(a@),
            right@ == encode_utf8(b@),
            forall|j: int| 0 <= j < i ==> left@[j] == right@[j],
        decreases left.len() - i,
    {
        if left[i] != right[i] {
            return false;
        }
        i = i + 1;
    }
    assert(left@ =~= right@);
    true
}

/// Whether `text` begins with `prefix`.
pub(crate) fn has_prefix(text: &str, prefix: &str) -> (found: bool)
    ensures
        found == prefix@.is_prefix_of(text@),
{
    let len = prefix.unicode_len();
    if len > text.unicode_len() {
        return false;
    }
    same_text(text.substring_char(0, len), prefix)
}

/// The first `n` characters of `s`, or all of `s` where it is shorter.
pub open spec fn head(s: Seq<char>, n: nat) -> Seq<char> {
    if s.len() <= n {
        s
    } else {
        s.subrange(0, n as int)
    }
}

/// The first `n` characters of `text`, or all of it where it is shorter.
pub fn first_chars(text: &str, n: usize) -> (out: String)
    ensures
        out@ == head(text@, n as nat),
{
    let len = text.unicode_len();
    if len <= n {
        String::from_str(text)
    } else {
        String::from_str(text.substring_char(0, n))
    }
}

/// `count` times the character `symbol`.
pub open spec fn run(symbol: char, count: nat) -> Seq<char> {
    Seq::new(count, |i: int| symbol)
}

/// `text`, filled up with spaces on the right to `width` characters; `text`
/// itself where it has that many or more.
pub open spec fn padded(text: Seq<char>, width: nat) -> Seq<char> {
    if text.len() >= width {
        text
    } else {
        text + run(' ', (width - text.len()) as nat)
    }
}

/// The one character of `symbol`, `count` times; nothing where `symbol` is
/// not one character.
pub fn repeat(symbol: &str, count: usize) -> (out: String)
    ensures
        symbol@.len() == 1 ==> out@ == run(symbol@[0], count as nat),
        symbol@.len() != 1 ==> out@ == Seq::<char>::empty(),
{
    let mut out = String::new();
    if symbol.unicode_len() != 1 {
        return out;
    }
    let mut written: usize = 0;
    while written < count
        invariant
            written <= count,
            symbol@.len() == 1,
            out@ == run(symbol@[0], written as nat),
        decreases count - written,
    {
        out.append(symbol);
        written = written + 1;
        assert(out@ =~= run(symbol@[0], written as nat));
    }
    out
}

/// `text`, filled up with spaces on the right to `width` characters.
pub fn pad(text: &str, width: usize) -> (out: String)
    ensures
        out@ == padded(text@, width as nat),
{
    let len = text.unicode_len();
    let mut out = String::from_str(text);
    if len < width {
        proof {
            reveal_strlit(" ");
        }
        let fill = repeat(" ", width - len);
        out.append(fill.as_str());
    }
    out
}

/// The parts of `parts` in order, with `sep` between each two neighbours.
pub open spec fn join(parts: Seq<Seq<char>>, sep: Seq<char>) -> Seq<char>
    decreases parts.len(),
{
    if parts.len() == 0 {
        Seq::empty()
    } else if parts.len() == 1 {
        parts[0]
    } else {
        join(parts.drop_last(), sep) + sep + parts.last()
    }
}

/// The items of `items` from position `start` on; none where there are not
/// that many.
pub open spec fn rest(items: Seq<Seq<char>>, start: nat) -> Seq<Seq<char>> {
    if start <= items.len() {
        items.subrange(start as int, items.len() as int)
    } else {
        Seq::empty()
    }
}

/// Joins the strings of `items` from position `start` on, with `sep` between
/// each two neighbours.
pub fn join_from(items: &Vec<String>, start: usize, sep: &str) -> (out: String)
    ensures
        out@ == join(rest(items.deep_view(), start as nat), sep@),
{
    let ghost all = items.deep_view();
    let mut out = String::new();
    if start > items.len() {
        return out;
    }
    let mut i: usize = start;
    while i < items.len()
        invariant
            start <= i <= items.len(),
            all == items.deep_view(),
            out@ == join(all.subrange(start as int, i as int), sep@),
        decreases items.len() - i,
    {
        let ghost before = all.subrange(start as int, i as int);
        let ghost after = all.subrange(start as int, i + 1);
        proof {
            assert(after.drop_last() == before);
            assert(after.last() == items[i as int]@);
            if i == start {
                assert(before.len() == 0);
                assert(out@ == Seq::<char>::empty());
                assert(out@ + items[i as int]@ == items[i as int]@);
            }
        }
        if i > start {
            out.append(sep);
        }
        out.append(items[i].as_str());
        i = i + 1;
    }
    out
}

} // verus!
