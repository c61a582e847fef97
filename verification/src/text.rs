//! UTF-8 facts about `String` contents, and the few `String` operations of
//! std that vstd gives no contract to.
use vstd::prelude::*;
use vstd::std_specs::iter::IteratorSpec;
use vstd::utf8::*;

verus! {

broadcast use vstd::string::group_string_axioms;

/// Number of bytes in the UTF-8 encoding of `s`.
pub open spec fn byte_len(s: Seq<char>) -> nat {
    encode_utf8(s).len()
}

/// Byte offset, in the UTF-8 encoding of `s`, of the character at index `k`
/// (the whole length when `k` is past the end).
pub open spec fn byte_offset(s: Seq<char>, k: int) -> nat {
    if k < s.len() {
        byte_len(s.take(k))
    } else {
        byte_len(s)
    }
}

/// Encoding a concatenation concatenates the encodings.
pub proof fn lemma_encode_append(a: Seq<char>, b: Seq<char>)
    ensures
        encode_utf8(a + b) == encode_utf8(a) + encode_utf8(b),
    decreases a.len(),
{
    if a.len() == 0 {
        assert(a + b =~= b);
        assert(encode_utf8(a) =~= Seq::<u8>::empty());
        assert(encode_utf8(a) + encode_utf8(b) =~= encode_utf8(b));
    } else {
        assert((a + b).drop_first() =~= a.drop_first() + b);
        assert((a + b)[0] == a[0]);
        lemma_encode_append(a.drop_first(), b);
        assert(encode_utf8(a + b) =~= encode_scalar(a[0] as u32) + encode_utf8(a.drop_first() + b));
        assert(encode_utf8(a) =~= encode_scalar(a[0] as u32) + encode_utf8(a.drop_first()));
    }
}

/// The encoding of a single character is the encoding of its scalar value.
pub proof fn lemma_encode_single(c: char)
    ensures
        encode_utf8(seq![c]) == encode_scalar(c as u32),
        1 <= encode_scalar(c as u32).len() <= 4,
{
    assert(seq![c].drop_first() =~= Seq::<char>::empty());
    assert(encode_utf8(seq![c]) =~= encode_scalar(c as u32) + encode_utf8(Seq::<char>::empty()));
    assert(encode_utf8(Seq::<char>::empty()) =~= Seq::<u8>::empty());
    assert(encode_scalar(c as u32) + Seq::<u8>::empty() =~= encode_scalar(c as u32));
}

/// Two character sequences with the same encoding are equal.
pub proof fn lemma_encode_injective(a: Seq<char>, b: Seq<char>)
    requires
        encode_utf8(a) == encode_utf8(b),
    ensures
        a == b,
{
    encode_utf8_decode_utf8(a);
    encode_utf8_decode_utf8(b);
}

/// The end of the encoding of a prefix is a character boundary of the whole encoding.
pub proof fn lemma_boundary_after_prefix(a: Seq<char>, b: Seq<char>)
    ensures
        is_char_boundary(encode_utf8(a + b), encode_utf8(a).len() as int),
    decreases a.len(),
{
    let bytes = encode_utf8(a + b);
    encode_utf8_valid_utf8(a + b);
    if a.len() == 0 {
        assert(encode_utf8(a) =~= Seq::<u8>::empty());
    } else {
        let ab = a + b;
        assert(ab.drop_first() =~= a.drop_first() + b);
        assert(ab[0] == a[0]);
        encode_utf8_first_scalar(ab);
        lemma_encode_single(a[0]);
        let l = length_of_first_scalar(bytes);
        assert(l == encode_scalar(a[0] as u32).len());
        assert(pop_first_scalar(bytes) =~= encode_utf8(a.drop_first() + b));
        assert(encode_utf8(a).len() == l + encode_utf8(a.drop_first()).len());
        lemma_boundary_after_prefix(a.drop_first(), b);
        lemma_encode_append(a.drop_first(), b);
        assert(bytes.len() >= encode_utf8(a).len()) by {
            lemma_encode_append(a, b);
        }
        assert(is_char_boundary(bytes, encode_utf8(a).len() as int) == is_char_boundary(
            pop_first_scalar(bytes),
            encode_utf8(a).len() - l,
        ));
    }
}

/// Splitting `s` at a character index splits its encoding at the matching byte offset,
/// and that offset is a character boundary.
pub proof fn lemma_split_at(s: Seq<char>, k: int)
    requires
        0 <= k <= s.len(),
    ensures
        encode_utf8(s) == encode_utf8(s.take(k)) + encode_utf8(s.skip(k)),
        is_char_boundary(encode_utf8(s), byte_len(s.take(k)) as int),
        encode_utf8(s).take(byte_len(s.take(k)) as int) == encode_utf8(s.take(k)),
        encode_utf8(s).skip(byte_len(s.take(k)) as int) == encode_utf8(s.skip(k)),
        byte_offset(s, k) == byte_len(s.take(k)),
{
    assert(s == s.take(k) + s.skip(k));
    lemma_encode_append(s.take(k), s.skip(k));
    lemma_boundary_after_prefix(s.take(k), s.skip(k));
    let e = encode_utf8(s);
    let l = byte_len(s.take(k)) as int;
    assert(e.take(l) =~= encode_utf8(s.take(k)));
    assert(e.skip(l) =~= encode_utf8(s.skip(k)));
    if k == s.len() {
        assert(s.take(k) == s);
    }
}

/// A longer prefix never has a shorter encoding.
pub proof fn lemma_byte_len_prefix_mono(s: Seq<char>, i: int, j: int)
    requires
        0 <= i <= j <= s.len(),
    ensures
        byte_len(s.take(i)) <= byte_len(s.take(j)) <= byte_len(s),
{
    assert(s.take(j) == s.take(i) + s.take(j).skip(i));
    lemma_encode_append(s.take(i), s.take(j).skip(i));
    lemma_split_at(s, j);
}

/// Number of bytes in the UTF-8 encoding of `c` (as `char::len_utf8` gives it).
pub fn utf8_width(c: char) -> (r: usize)
    ensures
        r == encode_scalar(c as u32).len(),
        1 <= r <= 4,
{
    let u = c as u32;
    proof {
        char_is_scalar(c);
    }
    if u <= 0x7F {
        1
    } else if u <= 0x7FF {
        2
    } else if u <= 0xFFFF {
        3
    } else {
        4
    }
}

/// The characters of `s`, in order.
pub fn chars_of(s: &str) -> (v: Vec<char>)
    ensures
        v@ == s@,
{
    let mut it = s.chars();
    let mut v: Vec<char> = Vec::new();
    loop
        invariant
            s@ == v@ + it.remaining(),
            it.obeys_prophetic_iter_laws(),
            it.decrease() is Some,
        ensures
            v@ == s@,
        decreases it.decrease()->0,
    {
        match it.next() {
            Some(c) => {
                v.push(c);
            },
            None => {
                break ;
            },
        }
    }
    v
}

/// Number of characters of `s` (what `s.chars().count()` gives).
pub fn char_count(s: &str) -> (n: usize)
    ensures
        n == s@.len(),
{
    s.unicode_len()
}

/// Lowercase mapping of a character sequence, as `str::to_lowercase` computes it.
pub uninterp spec fn lowercase(s: Seq<char>) -> Seq<char>;

/// `c` with an ASCII capital `A`..=`Z` turned into `a`..=`z`; any other
/// character unchanged.
pub open spec fn ascii_lower(c: char) -> char {
    if 'A' <= c <= 'Z' {
        ((c as u32) + 32) as char
    } else {
        c
    }
}

/// `ascii_lower` applied to each character of `s`.
pub open spec fn ascii_lower_seq(s: Seq<char>) -> Seq<char> {
    Seq::new(s.len(), |i: int| ascii_lower(s[i]))
}

/// Calls `str::to_lowercase`. Trusted to return the lowercase mapping of `s`, named
/// `lowercase`; that mapping is a function of the characters of `s` alone. Of it,
/// only this is claimed: std documents the mapping as the Unicode lowercase
/// mapping, which turns ASCII capitals `A`..=`Z` into `a`..=`z` and leaves every
/// other ASCII character as it is, so an all-ASCII text (the empty one among them)
/// maps character by character. What non-ASCII text maps to is not stated.
#[verifier::external_body]
pub(crate) fn str_to_lowercase(s: &str) -> (r: String)
    ensures
        r@ == lowercase(s@),
        is_ascii_chars(s@) ==> r@ == ascii_lower_seq(s@),
{
    s.to_lowercase()
}

/// Calls `String::insert`. Trusted to insert the UTF-8 encoding of `ch` at byte
/// position `idx`, as std documents; it panics when `idx` is not a character
/// boundary, and on capacity overflow past `isize::MAX` bytes, which `requires`
/// rules out.
#[verifier::external_body]
pub(crate) fn string_insert(s: &mut String, idx: usize, ch: char)
    requires
        is_char_boundary(encode_utf8(old(s)@), idx as int),
        byte_len(old(s)@) + encode_scalar(ch as u32).len() <= isize::MAX,
    ensures
        encode_utf8(final(s)@) == encode_utf8(old(s)@).take(idx as int) + encode_scalar(
            ch as u32,
        ) + encode_utf8(old(s)@).skip(idx as int),
{
    s.insert(idx, ch);
}

/// Calls `String::drain` on `start..end` and drops the iterator. Trusted to remove
/// those bytes, as std documents (the whole range goes even when the iterator is
/// not consumed); it panics unless `start <= end` and both are character
/// boundaries, which `requires` rules out.
#[verifier::external_body]
pub(crate) fn string_drain(s: &mut String, start: usize, end: usize)
    requires
        start <= end,
        is_char_boundary(encode_utf8(old(s)@), start as int),
        is_char_boundary(encode_utf8(old(s)@), end as int),
    ensures
        encode_utf8(final(s)@) == encode_utf8(old(s)@).take(start as int) + encode_utf8(
            old(s)@,
        ).skip(end as int),
{
    s.drain(start..end);
}

} // verus!
