//! Text as sequences of characters: the small operations the rules are written in.

use vstd::prelude::*;

verus! {

/// The number of bytes that `s` takes in UTF-8.
pub open spec fn byte_len(s: Seq<char>) -> nat {
    vstd::utf8::encode_utf8(s).len()
}

/// Whether `needle` occurs in `hay` as a contiguous run.
pub open spec fn occurs_in(needle: Seq<char>, hay: Seq<char>) -> bool {
    exists|i: int|
        0 <= i && i + needle.len() <= hay.len() && #[trigger] hay.subrange(i, i + needle.len())
            == needle
}

/// Whether `s` begins with `prefix`.
pub open spec fn begins_with(s: Seq<char>, prefix: Seq<char>) -> bool {
    prefix.len() <= s.len() && s.subrange(0, prefix.len() as int) == prefix
}

/// The pieces of `s` between the occurrences of `sep`, in order.
///
/// There is one more piece than there are separators: a text without a separator
/// is its own single piece, and two separators in a row enclose an empty piece.
pub open spec fn pieces(s: Seq<char>, sep: char) -> Seq<Seq<char>>
    decreases s.len(),
{
    if s.len() == 0 {
        seq![Seq::<char>::empty()]
    } else {
        let before = pieces(s.drop_last(), sep);
        if s.last() == sep {
            before.push(Seq::<char>::empty())
        } else {
            before.update(before.len() - 1, before.last().push(s.last()))
        }
    }
}

/// There is always at least one piece.
pub proof fn lemma_pieces_nonempty(s: Seq<char>, sep: char)
    ensures
        pieces(s, sep).len() >= 1,
    decreases s.len(),
{
    if s.len() > 0 {
        lemma_pieces_nonempty(s.drop_last(), sep);
    }
}

/// The texts of `parts` in a row, with `sep` between each two.
pub open spec fn joined(parts: Seq<Seq<char>>, sep: char) -> Seq<char>
    decreases parts.len(),
{
    if parts.len() == 0 {
        Seq::empty()
    } else if parts.len() == 1 {
        parts[0]
    } else {
        joined(parts.drop_last(), sep).push(sep) + parts.last()
    }
}

/// Splitting loses nothing: the pieces of a text, put in a row with the separator
/// between each two, are the text again, and no piece holds a separator.
pub proof fn law_pieces_rejoin(s: Seq<char>, sep: char)
    ensures
        joined(pieces(s, sep), sep) == s,
        forall|k: int| 0 <= k < pieces(s, sep).len() ==> !(#[trigger] pieces(s, sep)[k]).contains(sep),
    decreases s.len(),
{
    if s.len() == 0 {
        assert(!Seq::<char>::empty().contains(sep));
    } else {
        let front = s.drop_last();
        let before = pieces(front, sep);
        law_pieces_rejoin(front, sep);
        lemma_pieces_nonempty(front, sep);
        let after = pieces(s, sep);
        let last = before.len() - 1;
        if s.last() == sep {
            assert(after.drop_last() =~= before);
            assert(joined(after, sep) =~= front.push(sep));
            assert(front.push(sep) =~= s);
            assert forall|k: int| 0 <= k < after.len() implies !(#[trigger] after[k]).contains(sep) by {
                if k < before.len() {
                    assert(after[k] == before[k]);
                } else {
                    assert(after[k] =~= Seq::<char>::empty());
                }
            }
        } else {
            let grown = before[last].push(s.last());
            if before.len() == 1 {
                assert(joined(before, sep) == before[0]);
                assert(joined(after, sep) == grown);
            } else {
                assert(after.drop_last() =~= before.drop_last());
                assert(joined(after, sep) =~= (joined(before.drop_last(), sep).push(sep)
                    + before[last]).push(s.last()));
            }
            assert(front.push(s.last()) =~= s);
            assert forall|k: int| 0 <= k < after.len() implies !(#[trigger] after[k]).contains(sep) by {
                if k < last {
                    assert(after[k] == before[k]);
                } else {
                    assert(!before[last].contains(sep));
                    if grown.contains(sep) {
                        let i = choose|i: int| 0 <= i < grown.len() && grown[i] == sep;
                        if i < before[last].len() {
                            assert(before[last][i] == sep);
                        }
                    }
                }
            }
        }
    }
}

/// What `str::to_lowercase` returns for a text: its lowercase form by the rules of Unicode.
pub uninterp spec fn lowercase_of(s: Seq<char>) -> Seq<char>;

/// What `char::is_alphanumeric` returns for a character: whether Unicode counts it
/// as a letter or a number.
pub uninterp spec fn alphanumeric(c: char) -> bool;

/// What `str::trim` returns for a text: the text without the white space, as
/// Unicode defines it, at its two ends.
pub uninterp spec fn trimmed_of(s: Seq<char>) -> Seq<char>;

/// What `str::parse::<u64>` returns for a text: the number that the text
/// denotes in decimal, if it denotes one that fits.
pub uninterp spec fn decimal_u64(s: Seq<char>) -> Option<u64>;

/// What `str::parse::<usize>` returns for a text: the number that the text
/// denotes in decimal, if it denotes one that fits.
pub uninterp spec fn decimal_usize(s: Seq<char>) -> Option<usize>;

/// Whether `c` is an ASCII letter or digit.
pub open spec fn ascii_alphanumeric(c: char) -> bool {
    ('a' <= c && c <= 'z') || ('A' <= c && c <= 'Z') || ('0' <= c && c <= '9')
}

/// Calls `str::to_lowercase`.
///
/// Nothing is proved of the result; it is named [`lowercase_of`], a function of
/// the text alone.
#[verifier::external_body]
pub(crate) fn to_lowercase(s: &str) -> (r: String)
    ensures
        r@ == lowercase_of(s@),
{
    s.to_lowercase()
}

/// Calls `char::is_alphanumeric`.
///
/// Nothing is proved of the result; it is named [`alphanumeric`], a function of
/// the character alone. Of the ASCII characters the contract states what the
/// documentation does: the letters and the digits are alphanumeric, the others
/// are not.
#[verifier::external_body]
pub(crate) fn is_alphanumeric(c: char) -> (r: bool)
    ensures
        r == alphanumeric(c),
        c <= '\x7f' ==> r == ascii_alphanumeric(c),
{
    c.is_alphanumeric()
}

/// Calls `str::trim`.
///
/// Nothing is proved of the result; it is named [`trimmed_of`], a function of
/// the text alone.
#[verifier::external_body]
pub(crate) fn trim(s: &str) -> (r: &str)
    ensures
        r@ == trimmed_of(s@),
{
    s.trim()
}

/// Calls `str::parse::<u64>`.
///
/// Nothing is proved of the result; it is named [`decimal_u64`], a function of
/// the text alone. An error of the parse is handed on as `None`.
#[verifier::external_body]
pub(crate) fn parse_u64(s: &str) -> (r: Option<u64>)
    ensures
        r == decimal_u64(s@),
{
    s.parse::<u64>().ok()
}

/// Calls `str::parse::<usize>`.
///
/// Nothing is proved of the result; it is named [`decimal_usize`], a function of
/// the text alone. An error of the parse is handed on as `None`.
#[verifier::external_body]
pub(crate) fn parse_usize(s: &str) -> (r: Option<usize>)
    ensures
        r == decimal_usize(s@),
{
    s.parse::<usize>().ok()
}

/// The characters of `s`, in order.
pub fn chars_of(s: &str) -> (v: Vec<char>)
    ensures
        v@ == s@,
{
    let mut v: Vec<char> = Vec::new();
    for c in it: s.chars()
        invariant
            it.seq() == s@,
            v@ == it.seq().take(it.index() as int),
    {
        v.push(c);
    }
    v
}

/// Whether `a` and `b` are the same text.
pub fn same(a: &str, b: &str) -> (r: bool)
    ensures
        r == (a@ == b@),
{
    let left = String::from_str(a);
    let right = String::from_str(b);
    left == right
}

/// The text `a` followed by `b`.
pub fn join(a: &str, b: &str) -> (s: String)
    ensures
        s@ == a@ + b@,
{
    String::from_str(a).concat(b)
}

/// Whether `needle` stands in `hay` at the place `at`.
fn matches_at(hay: &Vec<char>, needle: &Vec<char>, at: usize) -> (r: bool)
    requires
        at + needle@.len() <= hay@.len(),
    ensures
        r == (hay@.subrange(at as int, at + needle@.len()) == needle@),
{
    let n = needle.len();
    let total = hay.len();
    let mut k: usize = 0;
    while k < n
        invariant
            n == needle@.len(),
            total == hay@.len(),
            at + n <= hay@.len(),
            k <= n,
            forall|j: int| 0 <= j < k ==> hay@[at + j] == needle@[j],
        decreases n - k,
    {
        if hay[at + k] != needle[k] {
            proof {
                assert(hay@.subrange(at as int, at + n)[k as int] == hay@[at + k]);
            }
            return false;
        }
        k += 1;
    }
    proof {
        assert(hay@.subrange(at as int, at + n) =~= needle@);
    }
    true
}

/// Whether `needle` occurs in `hay`.
pub fn contains(hay: &str, needle: &str) -> (r: bool)
    ensures
        r == occurs_in(needle@, hay@),
{
    let h = chars_of(hay);
    let n = chars_of(needle);
    if n.len() > h.len() {
        return false;
    }
    let last = h.len() - n.len();
    let mut i: usize = 0;
    while i < last
        invariant
            last == h@.len() - n@.len(),
            n@.len() <= h@.len(),
            i <= last,
            h@ == hay@,
            n@ == needle@,
            forall|j: int| 0 <= j < i ==> #[trigger] h@.subrange(j, j + n@.len()) != n@,
        decreases last - i,
    {
        if matches_at(&h, &n, i) {
            return true;
        }
        i += 1;
    }
    matches_at(&h, &n, last)
}

/// Whether `s` begins with `prefix`.
pub fn starts_with(s: &str, prefix: &str) -> (r: bool)
    ensures
        r == begins_with(s@, prefix@),
{
    let h = chars_of(s);
    let p = chars_of(prefix);
    if p.len() > h.len() {
        return false;
    }
    matches_at(&h, &p, 0)
}

/// The bounds of the pieces of `s` between the occurrences of `sep`: the piece
/// number `k` runs from the first to the second index of the pair number `k`.
pub fn split(s: &Vec<char>, sep: char) -> (bounds: Vec<(usize, usize)>)
    ensures
        bounds@.len() == pieces(s@, sep).len(),
        forall|k: int|
            0 <= k < bounds@.len() ==> {
                &&& (#[trigger] bounds@[k]).0 <= bounds@[k].1 <= s@.len()
                &&& s@.subrange(bounds@[k].0 as int, bounds@[k].1 as int) == pieces(s@, sep)[k]
            },
{
    let mut bounds: Vec<(usize, usize)> = Vec::new();
    let n = s.len();
    let mut from: usize = 0;
    let mut i: usize = 0;
    proof {
        assert(s@.take(0) =~= Seq::<char>::empty());
        assert(s@.subrange(0, 0) =~= Seq::<char>::empty());
    }
    while i < n
        invariant
            n == s@.len(),
            from <= i <= n,
            pieces(s@.take(i as int), sep).len() == bounds@.len() + 1,
            pieces(s@.take(i as int), sep).last() == s@.subrange(from as int, i as int),
            forall|k: int|
                0 <= k < bounds@.len() ==> {
                    &&& (#[trigger] bounds@[k]).0 <= bounds@[k].1 <= i
                    &&& s@.subrange(bounds@[k].0 as int, bounds@[k].1 as int) == pieces(
                        s@.take(i as int),
                        sep,
                    )[k]
                },
        decreases n - i,
    {
        proof {
            assert(s@.take(i + 1).drop_last() =~= s@.take(i as int));
            assert(s@.take(i + 1).last() == s@[i as int]);
        }
        if s[i] == sep {
            bounds.push((from, i));
            from = i + 1;
            proof {
                assert(s@.subrange(from as int, from as int) =~= Seq::<char>::empty());
            }
        } else {
            proof {
                assert(s@.subrange(from as int, i + 1) =~= s@.subrange(from as int, i as int).push(
                    s@[i as int],
                ));
            }
        }
        i += 1;
    }
    bounds.push((from, n));
    proof {
        assert(s@.take(n as int) =~= s@);
    }
    bounds
}

} // verus!
