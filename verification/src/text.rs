//! Text as characters and as UTF-8 bytes.
//!
//! A buffer is a `String`, and a place in it is a byte position. Contracts speak
//! of the buffer's characters instead: `index_at` says how many characters lie
//! before a byte position, and `offset` is the way back.
use vstd::prelude::*;
use vstd::string::*;
use vstd::utf8::*;

verus! {

/// The number of bytes that a character takes in UTF-8.
pub open spec fn char_size(c: char) -> nat {
    if (c as u32) < 0x80 {
        1
    } else if (c as u32) < 0x800 {
        2
    } else if (c as u32) < 0x10000 {
        3
    } else {
        4
    }
}

/// The number of bytes that a text takes in UTF-8.
pub open spec fn size(t: Seq<char>) -> nat
    decreases t.len(),
{
    if t.len() == 0 {
        0
    } else {
        char_size(t[0]) + size(t.drop_first())
    }
}

/// The byte position of the character with index `i`, or of the end of the text
/// where `i` is its length.
pub open spec fn offset(t: Seq<char>, i: int) -> nat {
    size(t.take(i))
}

/// Whether byte position `pos` lies between two characters of `t`, before the
/// first or behind the last.
pub open spec fn boundary(t: Seq<char>, pos: int) -> bool {
    exists|i: int| 0 <= i <= t.len() && #[trigger] offset(t, i) == pos
}

/// Whether `i` characters of `t`, and no more, end at or before byte position `pos`.
pub open spec fn ends_before(t: Seq<char>, i: int, pos: int) -> bool {
    &&& 0 <= i <= t.len()
    &&& offset(t, i) <= pos
    &&& i < t.len() ==> pos < offset(t, i + 1)
}

/// The number of characters before byte position `pos`. A character that the position
/// lies in does not count.
pub open spec fn index_at(t: Seq<char>, pos: int) -> int {
    choose|i: int| ends_before(t, i, pos)
}

/// A text takes the bytes of its parts.
pub proof fn lemma_size_add(a: Seq<char>, b: Seq<char>)
    ensures
        size(a + b) == size(a) + size(b),
    decreases a.len(),
{
    if a.len() == 0 {
        assert(a + b =~= b);
    } else {
        lemma_size_add(a.drop_first(), b);
        assert((a + b).drop_first() =~= a.drop_first() + b);
        assert((a + b)[0] == a[0]);
    }
}

/// One character more is the bytes of that character more.
pub proof fn lemma_offset_step(t: Seq<char>, i: int)
    requires
        0 <= i < t.len(),
    ensures
        offset(t, i + 1) == offset(t, i) + char_size(t[i]),
{
    assert(t.take(i + 1) =~= t.take(i) + seq![t[i]]);
    lemma_size_add(t.take(i), seq![t[i]]);
    assert(size(seq![t[i]]) == char_size(t[i])) by {
        reveal_with_fuel(size, 2);
    }
}

/// Later characters have later positions.
pub proof fn lemma_offset_order(t: Seq<char>, i: int, j: int)
    requires
        0 <= i <= j <= t.len(),
    ensures
        offset(t, i) + (j - i) <= offset(t, j),
    decreases j - i,
{
    if i < j {
        lemma_offset_order(t, i, j - 1);
        lemma_offset_step(t, j - 1);
    }
}

/// The start and the end of a text, in bytes.
pub proof fn lemma_offset_ends(t: Seq<char>)
    ensures
        offset(t, 0) == 0,
        offset(t, t.len() as int) == size(t),
        boundary(t, 0),
        boundary(t, size(t) as int),
{
    assert(t.take(t.len() as int) =~= t);
}

/// No two numbers of characters end before one position.
proof fn lemma_ends_before_once(t: Seq<char>, i: int, j: int, pos: int)
    requires
        ends_before(t, i, pos),
        ends_before(t, j, pos),
    ensures
        i == j,
{
    if i < j {
        lemma_offset_order(t, i + 1, j);
    } else if j < i {
        lemma_offset_order(t, j + 1, i);
    }
}

/// Some number of characters ends before each position.
proof fn lemma_ends_before_exists(t: Seq<char>, from: int, pos: int) -> (i: int)
    requires
        0 <= from <= t.len(),
        offset(t, from) <= pos,
    ensures
        ends_before(t, i, pos),
    decreases t.len() - from,
{
    if from < t.len() && offset(t, from + 1) <= pos {
        lemma_ends_before_exists(t, from + 1, pos)
    } else {
        from
    }
}

/// What `index_at` gives for any position.
pub proof fn lemma_index_at(t: Seq<char>, pos: int)
    requires
        pos >= 0,
    ensures
        ends_before(t, index_at(t, pos), pos),
        index_at(t, pos) == t.len() <==> pos >= size(t),
{
    lemma_offset_ends(t);
    let i = lemma_ends_before_exists(t, 0, pos);
    let j = index_at(t, pos);
    if j < t.len() {
        lemma_offset_order(t, j + 1, t.len() as int);
    }
}

/// Each character index has one position, and each position one index.
pub proof fn lemma_index_of_offset(t: Seq<char>, i: int)
    requires
        0 <= i <= t.len(),
    ensures
        boundary(t, offset(t, i) as int),
        index_at(t, offset(t, i) as int) == i,
        offset(t, i) <= size(t),
{
    let pos = offset(t, i) as int;
    if i < t.len() {
        lemma_offset_step(t, i);
    }
    assert(ends_before(t, i, pos));
    lemma_ends_before_once(t, i, index_at(t, pos), pos);
    lemma_offset_order(t, i, t.len() as int);
    lemma_offset_ends(t);
}

/// What `index_at` gives is an index, and `offset` leads back from it.
pub proof fn lemma_offset_of_index(t: Seq<char>, pos: int)
    requires
        boundary(t, pos),
    ensures
        0 <= index_at(t, pos) <= t.len(),
        offset(t, index_at(t, pos)) == pos,
        0 <= pos <= size(t),
{
    let i = choose|i: int| 0 <= i <= t.len() && #[trigger] offset(t, i) == pos;
    lemma_index_of_offset(t, i);
}

/// `char_size` agrees with the encoder.
proof fn lemma_char_size(c: char)
    ensures
        char_size(c) == encode_scalar(c as u32).len(),
{
    char_is_scalar(c);
}

/// `size` agrees with the encoder.
pub proof fn lemma_size_is_encoded_len(t: Seq<char>)
    ensures
        size(t) == encode_utf8(t).len(),
    decreases t.len(),
{
    if t.len() > 0 {
        lemma_char_size(t[0]);
        lemma_size_is_encoded_len(t.drop_first());
    }
}

/// The encoding of a text is the encodings of its parts.
proof fn lemma_encode_add(a: Seq<char>, b: Seq<char>)
    ensures
        encode_utf8(a + b) == encode_utf8(a) + encode_utf8(b),
    decreases a.len(),
{
    if a.len() == 0 {
        assert(a + b =~= b);
    } else {
        lemma_encode_add(a.drop_first(), b);
        assert((a + b).drop_first() =~= a.drop_first() + b);
        assert((a + b)[0] == a[0]);
        assert(encode_utf8(a + b) =~= encode_utf8(a) + encode_utf8(b));
    }
}

/// A position between characters is a character boundary of the encoded text.
proof fn lemma_boundary_encoded(t: Seq<char>, i: int)
    requires
        0 <= i <= t.len(),
    ensures
        is_char_boundary(encode_utf8(t), offset(t, i) as int),
    decreases t.len(),
{
    encode_utf8_valid_utf8(t);
    if i == 0 {
        assert(offset(t, 0) == 0);
    } else {
        let bytes = encode_utf8(t);
        let rest = t.drop_first();
        encode_utf8_first_scalar(t);
        lemma_char_size(t[0]);
        assert(pop_first_scalar(bytes) =~= encode_utf8(rest));
        lemma_boundary_encoded(rest, i - 1);
        assert(t.take(i).drop_first() =~= rest.take(i - 1));
        lemma_size_is_encoded_len(t);
        lemma_index_of_offset(t, i);
    }
}

/// Encoding loses nothing.
proof fn lemma_encode_injective(a: Seq<char>, b: Seq<char>)
    requires
        encode_utf8(a) == encode_utf8(b),
    ensures
        a == b,
{
    encode_utf8_decode_utf8(a);
    encode_utf8_decode_utf8(b);
}

/// The length of a text in bytes.
pub fn byte_len(s: &str) -> (n: usize)
    ensures
        n == size(s@),
{
    proof {
        lemma_size_is_encoded_len(s@);
    }
    s.as_bytes().len()
}

/// The number of bytes of a character.
pub fn len_utf8(c: char) -> (n: usize)
    ensures
        n == char_size(c),
        1 <= n <= 4,
{
    let code: u32 = c as u32;
    if code < 0x80 {
        1
    } else if code < 0x800 {
        2
    } else if code < 0x10000 {
        3
    } else {
        4
    }
}

/// The characters of a text.
pub fn chars_of(s: &str) -> (v: Vec<char>)
    ensures
        v@ == s@,
        size(v@) <= usize::MAX,
{
    // Reading the length shows that it fits a `usize`.
    let _bytes: usize = byte_len(s);
    let mut v: Vec<char> = Vec::new();
    for c in it: s.chars()
        invariant
            v@ == it.seq().take(it.index()),
            it.seq() == s@,
    {
        proof {
            assert(it.seq().take(it.index() + 1) =~= it.seq().take(it.index()).push(c));
        }
        v.push(c);
    }
    proof {
        assert(s@.take(s@.len() as int) =~= s@);
    }
    v
}

/// The byte position of the character with index `i`.
pub fn byte_offset(v: &Vec<char>, i: usize) -> (pos: usize)
    requires
        i <= v.len(),
        size(v@) <= usize::MAX,
    ensures
        pos == offset(v@, i as int),
{
    let mut pos: usize = 0;
    let mut k: usize = 0;
    while k < i
        invariant
            k <= i <= v.len(),
            pos == offset(v@, k as int),
            size(v@) <= usize::MAX,
        decreases i - k,
    {
        proof {
            lemma_offset_step(v@, k as int);
            lemma_index_of_offset(v@, k + 1);
        }
        pos = pos + len_utf8(v[k]);
        k = k + 1;
    }
    pos
}

/// The number of characters before a byte position, or `None` where the position
/// lies inside a character or behind the text.
pub fn char_index(v: &Vec<char>, pos: usize) -> (i: Option<usize>)
    requires
        size(v@) <= usize::MAX,
    ensures
        match i {
            Some(i) => boundary(v@, pos as int) && i == index_at(v@, pos as int) && i <= v.len(),
            None => !boundary(v@, pos as int),
        },
{
    let mut at: usize = 0;
    let mut k: usize = 0;
    while k < v.len() && at < pos
        invariant
            k <= v.len(),
            at == offset(v@, k as int),
            size(v@) <= usize::MAX,
            k > 0 ==> offset(v@, k - 1) < pos,
        decreases v.len() - k,
    {
        proof {
            lemma_offset_step(v@, k as int);
            lemma_index_of_offset(v@, k + 1);
        }
        at = at + len_utf8(v[k]);
        k = k + 1;
    }
    proof {
        lemma_index_of_offset(v@, k as int);
    }
    if at == pos {
        Some(k)
    } else {
        proof {
            assert forall|i: int| 0 <= i <= v.len() implies #[trigger] offset(v@, i) != pos by {
                if i < k {
                    lemma_offset_order(v@, i, k - 1);
                } else {
                    lemma_offset_order(v@, k as int, i);
                }
            }
        }
        None
    }
}

/// The two parts of a text at a byte position.
pub fn split(s: &str, pos: usize) -> (parts: (&str, &str))
    requires
        boundary(s@, pos as int),
    ensures
        parts.0@ == s@.take(index_at(s@, pos as int)),
        parts.1@ == s@.skip(index_at(s@, pos as int)),
{
    let ghost i = index_at(s@, pos as int);
    proof {
        lemma_offset_of_index(s@, pos as int);
        lemma_boundary_encoded(s@, i);
    }
    let parts = s.split_at(pos);
    proof {
        let a = s@.take(i);
        let b = s@.skip(i);
        assert(a + b =~= s@);
        lemma_encode_add(a, b);
        lemma_size_is_encoded_len(a);
        assert(encode_utf8(parts.0@) =~= encode_utf8(a));
        assert(encode_utf8(parts.1@) =~= encode_utf8(b));
        lemma_encode_injective(parts.0@, a);
        lemma_encode_injective(parts.1@, b);
    }
    parts
}

/// The part of a text between two byte positions.
pub fn slice(s: &str, low: usize, high: usize) -> (part: String)
    requires
        boundary(s@, low as int),
        boundary(s@, high as int),
        low <= high,
    ensures
        part@ == s@.subrange(index_at(s@, low as int), index_at(s@, high as int)),
{
    let (front, _) = split(s, high);
    proof {
        let i = index_at(s@, low as int);
        let j = index_at(s@, high as int);
        lemma_offset_of_index(s@, low as int);
        lemma_offset_of_index(s@, high as int);
        if j < i {
            lemma_offset_order(s@, j, i);
        }
        assert(s@.take(j).take(i) =~= s@.take(i));
        lemma_index_of_offset(s@.take(j), i);
        assert(s@.take(j).skip(i) =~= s@.subrange(i, j));
    }
    let (_, part) = split(front, low);
    part.to_owned()
}

/// A text with the part between two byte positions replaced by another text.
pub fn splice(s: &str, low: usize, high: usize, mid: &str) -> (r: String)
    requires
        boundary(s@, low as int),
        boundary(s@, high as int),
    ensures
        r@ == s@.take(index_at(s@, low as int)) + mid@ + s@.skip(index_at(s@, high as int)),
{
    let (front, _) = split(s, low);
    let (_, back) = split(s, high);
    let mut r = front.to_owned();
    r.append(mid);
    r.append(back);
    r
}

} // verus!
