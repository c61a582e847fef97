//! Editing the search query at a character position, and filtering the items by
//! fuzzy match against it.
use vstd::prelude::*;
use vstd::std_specs::iter::IteratorSpec;
use vstd::utf8::*;
use crate::common::State;
use crate::text::{
    byte_len, byte_offset, chars_of, lemma_split_at, lemma_encode_append, lemma_encode_single,
    lemma_encode_injective, lemma_byte_len_prefix_mono, utf8_width, lowercase, str_to_lowercase,
    string_insert, string_drain, ascii_lower_seq,
};

verus! {

broadcast use vstd::string::group_string_axioms;

// ---------------------------------------------------------------------------
// Fuzzy matching
// ---------------------------------------------------------------------------

/// `f` places each element of `p` on an equal element of `t`, at strictly
/// increasing positions.
pub open spec fn embeds<A>(p: Seq<A>, t: Seq<A>, f: Seq<int>) -> bool {
    &&& f.len() == p.len()
    &&& forall|i: int|
        #![trigger f[i]]
        0 <= i < f.len() ==> (0 <= f[i] && f[i] < t.len() && t[f[i]] == p[i])
    &&& forall|i: int, j: int| #![trigger f[i], f[j]] 0 <= i < j < f.len() ==> f[i] < f[j]
}

/// Every element of `p` appears in `t`, in the same order.
pub open spec fn is_subsequence<A>(p: Seq<A>, t: Seq<A>) -> bool {
    exists|f: Seq<int>| embeds(p, t, f)
}

/// The empty pattern is found in any text.
pub proof fn lemma_empty_subsequence(t: Seq<char>)
    ensures
        is_subsequence(Seq::<char>::empty(), t),
{
    assert(embeds(Seq::<char>::empty(), t, Seq::<int>::empty()));
}

/// A non-empty pattern is not found in the empty text.
pub proof fn lemma_not_subsequence_of_empty(p: Seq<char>, t: Seq<char>)
    requires
        p.len() > 0,
        t.len() == 0,
    ensures
        !is_subsequence(p, t),
{
    if is_subsequence(p, t) {
        let f = choose|f: Seq<int>| embeds(p, t, f);
        assert(embeds(p, t, f));
        assert(f.len() > 0);
        assert(f[0] >= 0);
        assert(f[0] < t.len());
    }
}

/// When the text starts with the first pattern character, matching goes on with
/// both rests.
pub proof fn lemma_subsequence_head_match(p: Seq<char>, t: Seq<char>)
    requires
        p.len() > 0,
        t.len() > 0,
        t[0] == p[0],
    ensures
        is_subsequence(p, t) == is_subsequence(p.drop_first(), t.drop_first()),
{
    let p1 = p.drop_first();
    let t1 = t.drop_first();
    if is_subsequence(p1, t1) {
        let f = choose|f: Seq<int>| embeds(p1, t1, f);
        let g = seq![0int] + f.map_values(|x: int| x + 1);
        assert forall|i: int| 0 <= i < g.len() implies 0 <= #[trigger] g[i] < t.len() && t[g[i]]
            == p[i] by {
            if i > 0 {
                assert(g[i] == f[i - 1] + 1);
            }
        }
        assert forall|i: int, j: int| 0 <= i < j < g.len() implies #[trigger] g[i]
            < #[trigger] g[j] by {
            if i > 0 {
                assert(g[i] == f[i - 1] + 1);
            }
            assert(g[j] == f[j - 1] + 1);
            assert(f[j - 1] >= 0);
        }
        assert(embeds(p, t, g));
    }
    if is_subsequence(p, t) {
        let g = choose|g: Seq<int>| embeds(p, t, g);
        let f = g.drop_first().map_values(|x: int| x - 1);
        assert forall|i: int| 0 <= i < f.len() implies 0 <= #[trigger] f[i] < t1.len() && t1[f[i]]
            == p1[i] by {
            assert(g[0] < g[i + 1]);
            assert(g[0] >= 0);
        }
        assert forall|i: int, j: int| 0 <= i < j < f.len() implies #[trigger] f[i]
            < #[trigger] f[j] by {
            assert(g[i + 1] < g[j + 1]);
        }
        assert(embeds(p1, t1, f));
    }
}

/// When the text starts with another character than the pattern, that character
/// is skipped.
pub proof fn lemma_subsequence_head_skip(p: Seq<char>, t: Seq<char>)
    requires
        p.len() > 0,
        t.len() > 0,
        t[0] != p[0],
    ensures
        is_subsequence(p, t) == is_subsequence(p, t.drop_first()),
{
    let t1 = t.drop_first();
    if is_subsequence(p, t1) {
        let f = choose|f: Seq<int>| embeds(p, t1, f);
        let g = f.map_values(|x: int| x + 1);
        assert forall|i: int| 0 <= i < g.len() implies 0 <= #[trigger] g[i] < t.len() && t[g[i]]
            == p[i] by {
            assert(f[i] >= 0);
        }
        assert forall|i: int, j: int| 0 <= i < j < g.len() implies #[trigger] g[i]
            < #[trigger] g[j] by {
            assert(f[i] < f[j]);
        }
        assert(embeds(p, t, g));
    }
    if is_subsequence(p, t) {
        let g = choose|g: Seq<int>| embeds(p, t, g);
        assert(g[0] != 0);
        let f = g.map_values(|x: int| x - 1);
        assert forall|i: int| 0 <= i < f.len() implies 0 <= #[trigger] f[i] < t1.len() && t1[f[i]]
            == p[i] by {
            if i > 0 {
                assert(g[0] < g[i]);
            }
        }
        assert forall|i: int, j: int| 0 <= i < j < f.len() implies #[trigger] f[i]
            < #[trigger] f[j] by {
            assert(g[i] < g[j]);
        }
        assert(embeds(p, t1, f));
    }
}

/// Simple fuzzy match: each character of `pattern` must appear in `text`, in order.
pub fn fuzzy_match(text: &str, pattern: &str) -> (r: bool)
    ensures
        r == is_subsequence(pattern@, text@),
{
    if pattern.is_empty() {
        proof {
            assert(pattern@ =~= Seq::<char>::empty());
            lemma_empty_subsequence(text@);
        }
        return true;
    }
    let mut chars = text.chars();
    let mut pats = pattern.chars();
    loop
        invariant
            is_subsequence(pattern@, text@) == is_subsequence(
                pats.remaining(),
                chars.remaining(),
            ),
            pats.obeys_prophetic_iter_laws(),
            pats.decrease() is Some,
            chars.obeys_prophetic_iter_laws(),
            chars.decrease() is Some,
        decreases pats.decrease()->0,
    {
        let ghost prem = pats.remaining();
        match pats.next() {
            None => {
                proof {
                    assert(prem =~= Seq::<char>::empty());
                    lemma_empty_subsequence(chars.remaining());
                }
                return true;
            },
            Some(p) => {
                // Looks for `p` in what is left of the text.
                let mut found = false;
                loop
                    invariant_except_break
                        prem.len() > 0,
                        prem[0] == p,
                        pats.remaining() == prem.drop_first(),
                        is_subsequence(pattern@, text@) == is_subsequence(
                            prem,
                            chars.remaining(),
                        ),
                        chars.obeys_prophetic_iter_laws(),
                        chars.decrease() is Some,
                        !found,
                    ensures
                        found ==> is_subsequence(pattern@, text@) == is_subsequence(
                            pats.remaining(),
                            chars.remaining(),
                        ),
                        !found ==> !is_subsequence(pattern@, text@),
                        chars.obeys_prophetic_iter_laws(),
                        chars.decrease() is Some,
                    decreases chars.decrease()->0,
                {
                    let ghost trem = chars.remaining();
                    match chars.next() {
                        Some(c) => {
                            if c == p {
                                proof {
                                    lemma_subsequence_head_match(prem, trem);
                                }
                                found = true;
                                break ;
                            } else {
                                proof {
                                    lemma_subsequence_head_skip(prem, trem);
                                }
                            }
                        },
                        None => {
                            proof {
                                lemma_not_subsequence_of_empty(prem, trem);
                            }
                            break ;
                        },
                    }
                }
                if !found {
                    return false;
                }
            },
        }
    }
}

// ---------------------------------------------------------------------------
// Editing at a character position
// ---------------------------------------------------------------------------

/// `pos` brought within `0..=len`.
pub open spec fn clamp_index(pos: int, len: int) -> int {
    if pos < 0 {
        0
    } else if pos < len {
        pos
    } else {
        len
    }
}

/// `s` with `c` inserted at character position `pos` (at the end when `pos` is
/// past the last character).
pub open spec fn inserted(s: Seq<char>, pos: int, c: char) -> Seq<char> {
    let k = clamp_index(pos, s.len() as int);
    s.take(k) + seq![c] + s.skip(k)
}

/// `s` with the character left of position `pos` removed (nothing is removed when
/// no character stands there).
pub open spec fn deleted_left(s: Seq<char>, pos: int) -> Seq<char> {
    s.take(clamp_index(pos - 1, s.len() as int)) + s.skip(clamp_index(pos, s.len() as int))
}

/// Converts a char index into a byte index for `s` (the byte length when the
/// index is past the last character).
pub fn char_to_byte(s: &str, char_pos: usize) -> (r: usize)
    ensures
        r == byte_offset(s@, char_pos as int),
        r == byte_len(s@.take(clamp_index(char_pos as int, s@.len() as int))),
{
    let total = s.as_bytes().len();
    let mut it = s.chars();
    let mut k: usize = 0;
    let mut b: usize = 0;
    proof {
        assert(s@.take(0) =~= Seq::<char>::empty());
        assert(encode_utf8(Seq::<char>::empty()) =~= Seq::<u8>::empty());
        assert(s@.skip(0) =~= s@);
    }
    while k < char_pos
        invariant
            k <= char_pos,
            k <= s@.len(),
            total == byte_len(s@),
            it.remaining() == s@.skip(k as int),
            b == byte_len(s@.take(k as int)),
            it.obeys_prophetic_iter_laws(),
            it.decrease() is Some,
        decreases char_pos - k,
    {
        let ghost rem = it.remaining();
        match it.next() {
            Some(c) => {
                proof {
                    assert(s@[k as int] == c);
                    assert(s@.take(k + 1) =~= s@.take(k as int) + seq![c]);
                    lemma_encode_append(s@.take(k as int), seq![c]);
                    lemma_encode_single(c);
                    lemma_byte_len_prefix_mono(s@, k + 1, k + 1);
                    assert(rem.drop_first() =~= s@.skip(k + 1));
                }
                b = b + utf8_width(c);
                k = k + 1;
            },
            None => {
                proof {
                    assert(s@.take(s@.len() as int) =~= s@);
                }
                return total;
            },
        }
    }
    proof {
        lemma_split_at(s@, k as int);
        if k as int == s@.len() {
            assert(s@.take(k as int) =~= s@);
        }
    }
    b
}

/// Inserts `c` at character position `char_pos` in `s` (at the end when the
/// position is past the last character).
pub fn char_insert(s: &mut String, char_pos: usize, c: char)
    requires
        byte_len(old(s)@) + encode_scalar(c as u32).len() <= isize::MAX,
    ensures
        final(s)@ == inserted(old(s)@, char_pos as int, c),
{
    let ghost old_s = s@;
    let ghost k = clamp_index(char_pos as int, old_s.len() as int);
    let byte_pos = char_to_byte(s.as_str(), char_pos);
    proof {
        lemma_split_at(old_s, k);
    }
    string_insert(s, byte_pos, c);
    proof {
        let a = old_s.take(k);
        let b = old_s.skip(k);
        lemma_encode_single(c);
        lemma_encode_append(a, seq![c]);
        lemma_encode_append(a + seq![c], b);
        assert(encode_utf8(s@) =~= encode_utf8(a + seq![c] + b));
        lemma_encode_injective(s@, a + seq![c] + b);
    }
}

/// Removes the character left of `char_pos`; returns the new position.
pub fn char_delete_left(s: &mut String, char_pos: usize) -> (r: usize)
    ensures
        char_pos == 0 ==> r == 0 && final(s)@ == old(s)@,
        char_pos > 0 ==> r == char_pos - 1 && final(s)@ == deleted_left(old(s)@, char_pos as int),
{
    if char_pos == 0 {
        return 0;
    }
    let ghost old_s = s@;
    let ghost k1 = clamp_index(char_pos - 1, old_s.len() as int);
    let ghost k2 = clamp_index(char_pos as int, old_s.len() as int);
    let byte_end = char_to_byte(s.as_str(), char_pos);
    let byte_start = char_to_byte(s.as_str(), char_pos - 1);
    proof {
        lemma_split_at(old_s, k1);
        lemma_split_at(old_s, k2);
        lemma_byte_len_prefix_mono(old_s, k1, k2);
    }
    string_drain(s, byte_start, byte_end);
    proof {
        let a = old_s.take(k1);
        let b = old_s.skip(k2);
        lemma_encode_append(a, b);
        assert(encode_utf8(s@) =~= encode_utf8(a + b));
        lemma_encode_injective(s@, a + b);
    }
    char_pos - 1
}

/// Going left from `pos` in `s`, the spaces run back to `m` and the word before
/// them runs back to `r`.
pub open spec fn word_bounds(s: Seq<char>, pos: int, m: int, r: int) -> bool {
    &&& 0 <= r <= m <= pos
    &&& forall|i: int| m <= i < pos ==> s[i] == ' '
    &&& (m == 0 || s[m - 1] != ' ')
    &&& forall|i: int| r <= i < m ==> s[i] != ' '
    &&& (r == 0 || s[r - 1] == ' ')
}

/// `r` is where the word left of `pos` starts in `s`: going left from `pos`,
/// first over spaces, then over the characters that are not spaces.
pub open spec fn word_start_at(s: Seq<char>, pos: int, r: int) -> bool {
    exists|m: int| word_bounds(s, pos, m, r)
}

/// Deletes the whole word left of the cursor (Ctrl+Backspace).
/// Returns the new char_pos.
pub fn delete_word_left(s: &mut String, char_pos: usize) -> (r: usize)
    requires
        char_pos <= old(s)@.len(),
    ensures
        r <= char_pos,
        word_start_at(old(s)@, char_pos as int, r as int),
        final(s)@ == old(s)@.take(r as int) + old(s)@.skip(char_pos as int),
{
    if char_pos == 0 {
        proof {
            assert(s@.take(0) + s@.skip(0) =~= s@);
            assert(word_bounds(s@, 0, 0, 0));
        }
        return 0;
    }
    let chars: Vec<char> = chars_of(s.as_str());
    let ghost old_s = s@;

    let mut pos = char_pos;
    while pos > 0 && chars[pos - 1] == ' '
        invariant
            chars@ == old_s,
            pos <= char_pos <= old_s.len(),
            forall|i: int| pos <= i < char_pos ==> old_s[i] == ' ',
        decreases pos,
    {
        pos -= 1;
    }
    let ghost m = pos as int;
    while pos > 0 && chars[pos - 1] != ' '
        invariant
            chars@ == old_s,
            pos <= m <= char_pos <= old_s.len(),
            forall|i: int| pos <= i < m ==> old_s[i] != ' ',
        decreases pos,
    {
        pos -= 1;
    }
    proof {
        assert(m == 0 || old_s[m - 1] != ' ');
        assert(word_bounds(old_s, char_pos as int, m, pos as int));
    }

    let byte_start = char_to_byte(s.as_str(), pos);
    let byte_end = char_to_byte(s.as_str(), char_pos);
    proof {
        lemma_split_at(old_s, pos as int);
        lemma_split_at(old_s, char_pos as int);
        lemma_byte_len_prefix_mono(old_s, pos as int, char_pos as int);
    }
    string_drain(s, byte_start, byte_end);
    proof {
        let a = old_s.take(pos as int);
        let b = old_s.skip(char_pos as int);
        lemma_encode_append(a, b);
        assert(encode_utf8(s@) =~= encode_utf8(a + b));
        lemma_encode_injective(s@, a + b);
    }
    pos
}

// ---------------------------------------------------------------------------
// Filtering
// ---------------------------------------------------------------------------

/// Indices, among the first `n` keys, of those whose lowercase form holds the
/// pattern `q` in order; in increasing order.
pub open spec fn matching_upto(keys: Seq<String>, q: Seq<char>, n: int) -> Seq<usize>
    decreases n,
{
    if n <= 0 {
        Seq::empty()
    } else {
        let prev = matching_upto(keys, q, n - 1);
        if is_subsequence(q, lowercase(keys[n - 1]@)) {
            prev.push((n - 1) as usize)
        } else {
            prev
        }
    }
}

/// The filtered list for `keys` and the search query `query`: the indices of the
/// keys that fuzzy-match the query, both taken in lowercase, in increasing order.
pub open spec fn filter_result(keys: Seq<String>, query: Seq<char>) -> Seq<usize> {
    matching_upto(keys, lowercase(query), keys.len() as int)
}

/// With the empty pattern, every one of the first `n` keys is kept.
pub proof fn lemma_empty_pattern_keeps_all(keys: Seq<String>, n: int)
    requires
        0 <= n <= usize::MAX,
    ensures
        matching_upto(keys, Seq::<char>::empty(), n) == Seq::new(n as nat, |i: int| i as usize),
    decreases n,
{
    if n > 0 {
        lemma_empty_pattern_keeps_all(keys, n - 1);
        lemma_empty_subsequence(lowercase(keys[n - 1]@));
        assert(Seq::new((n - 1) as nat, |i: int| i as usize).push((n - 1) as usize) =~= Seq::new(
            n as nat,
            |i: int| i as usize,
        ));
    } else {
        assert(Seq::new(n as nat, |i: int| i as usize) =~= Seq::<usize>::empty());
    }
}

/// `b` is `a` with at most the filtered list changed.
pub open spec fn same_but_filter(a: State, b: State) -> bool {
    &&& b.items_key == a.items_key
    &&& b.item_values == a.item_values
    &&& b.search_query == a.search_query
    &&& b.cursor_pos == a.cursor_pos
    &&& b.comment == a.comment
    &&& b.search == a.search
    &&& b.scroll_offset == a.scroll_offset
    &&& b.search_cursor == a.search_cursor
    &&& b.max_lines == a.max_lines
    &&& b.max_visible == a.max_visible
    &&& b.comment_lines == a.comment_lines
    &&& b.search_lines == a.search_lines
    &&& b.total_lines == a.total_lines
}

/// Updates the filtered list by fuzzy match of each key against the query.
pub fn update_filter(state: &mut State)
    ensures
        same_but_filter(*old(state), *final(state)),
        final(state).filtered_items@ == filter_result(
            old(state).items_key@,
            old(state).search_query@,
        ),
        is_ascii_chars(old(state).search_query@) ==> final(state).filtered_items@
            == matching_upto(
            old(state).items_key@,
            ascii_lower_seq(old(state).search_query@),
            old(state).items_key@.len() as int,
        ),
        old(state).search_query@.len() == 0 ==> final(state).filtered_items@ == Seq::new(
            old(state).items_key@.len(),
            |i: int| i as usize,
        ),
        is_ascii_chars(old(state).search_query@) ==> lowercase(old(state).search_query@)
            == ascii_lower_seq(old(state).search_query@),
        forall|i: int|
            0 <= i < old(state).items_key@.len() && is_ascii_chars(
                #[trigger] old(state).items_key@[i]@,
            ) ==> lowercase(old(state).items_key@[i]@) == ascii_lower_seq(
                old(state).items_key@[i]@,
            ),
{
    let query = str_to_lowercase(state.search_query.as_str());
    let n = state.items_key.len();
    let mut filtered: Vec<usize> = Vec::new();
    for idx in 0..n
        invariant
            n == state.items_key@.len(),
            query@ == lowercase(state.search_query@),
            filtered@ == matching_upto(state.items_key@, query@, idx as int),
            is_ascii_chars(state.search_query@) ==> query@ == ascii_lower_seq(state.search_query@),
            forall|i: int|
                0 <= i < idx && is_ascii_chars(#[trigger] state.items_key@[i]@) ==> lowercase(
                    state.items_key@[i]@,
                ) == ascii_lower_seq(state.items_key@[i]@),
    {
        let key = str_to_lowercase(state.items_key[idx].as_str());
        if fuzzy_match(key.as_str(), query.as_str()) {
            filtered.push(idx);
        }
    }
    proof {
        if state.search_query@.len() == 0 {
            assert(is_ascii_chars(state.search_query@));
            assert(query@ =~= Seq::<char>::empty());
            lemma_empty_pattern_keeps_all(state.items_key@, n as int);
        }
    }
    state.filtered_items = filtered;
}

} // verus!
