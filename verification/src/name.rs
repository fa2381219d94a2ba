//! The form in which a member's name is kept as their nickname.

use vstd::prelude::*;

use crate::text::{
    all_whitespace, char_range, chars_of, join_spaced, join_spaced_words, lemma_chars_deep_view,
    lemma_join_spaced_concat, lemma_single_word, lemma_whitespace_separates, no_whitespace, lemma_words_of_whitespace, lemma_words_shape, lowercase_of,
    push_all, split_ascii_words, string_from_chars, to_lowercase, words,
};

verus! {

/// The initial of a sanitized name word: `i` becomes the dotted capital
/// `İ`, the dotless `ı` becomes `I`, and any other character goes through
/// `char::to_ascii_uppercase` (ASCII `a` to `z` become `A` to `Z`, the
/// rest is kept).
pub open spec fn initial_upper(c: char) -> char {
    if c == 'i' {
        '\u{130}'
    } else if c == '\u{131}' {
        'I'
    } else if 'a' <= c && c <= 'z' {
        ((c as u32) - 32) as char
    } else {
        c
    }
}

/// A sanitized word: its initial as `initial_upper` says, then the rest of
/// the word lowercased.
pub open spec fn sanitized_word(w: Seq<char>) -> Seq<char> {
    seq![initial_upper(w[0])] + lowercase_of(w.drop_first())
}

/// A sanitized name: its words, each sanitized, joined by single spaces.
pub open spec fn sanitized_name(name: Seq<char>) -> Seq<char> {
    join_spaced(words(name).map_values(|w: Seq<char>| sanitized_word(w)))
}

/// The initial of a sanitized word, as `initial_upper` says.
pub fn capitalized_initial(c: char) -> (r: char)
    ensures
        r == initial_upper(c),
{
    if c == 'i' {
        '\u{130}'
    } else if c == '\u{131}' {
        'I'
    } else if 'a' <= c && c <= 'z' {
        let b: u8 = c as u8;
        assert(b as u32 == c as u32);
        (b - 32) as char
    } else {
        c
    }
}

/// A sanitized word built from its original initial and the already
/// lowercased rest of the word.
pub fn sanitized_word_from(initial: char, lowered_rest: &str) -> (r: Vec<char>)
    ensures
        r@ == seq![initial_upper(initial)] + lowered_rest@,
{
    let mut r: Vec<char> = Vec::new();
    r.push(capitalized_initial(initial));
    let rest = chars_of(lowered_rest);
    push_all(&mut r, rest.as_slice());
    r
}

/// Sanitizes a member's name: the words between ASCII whitespace are kept
/// in order, each with a capital initial (Turkish `i`/`ı` handled) and the
/// rest in lowercase, and joined by single spaces.
pub fn name_sanitized(name: &str) -> (r: String)
    ensures
        r@ == sanitized_name(name@),
{
    let chars = chars_of(name);
    let ws = split_ascii_words(chars.as_slice());
    let ghost dv = ws.deep_view();
    proof {
        lemma_words_shape(name@);
    }
    let mut parts: Vec<Vec<char>> = Vec::new();
    let mut i: usize = 0;
    while i < ws.len()
        invariant
            i <= ws.len(),
            dv == ws.deep_view(),
            dv == words(name@),
            forall|j: int| 0 <= j < dv.len() ==> (#[trigger] dv[j]).len() > 0,
            parts.deep_view() == dv.take(i as int).map_values(|w: Seq<char>| sanitized_word(w)),
        decreases ws.len() - i,
    {
        let w = &ws[i];
        proof {
            lemma_chars_deep_view(w);
            assert(dv[i as int] == w@);
        }
        let rest = char_range(w.as_slice(), 1, w.len());
        assert(rest@ =~= w@.drop_first());
        let rest_string = string_from_chars(rest.as_slice());
        let lowered = to_lowercase(rest_string.as_str());
        let word = sanitized_word_from(w[0], lowered.as_str());
        let ghost before = parts.deep_view();
        proof {
            lemma_chars_deep_view(&word);
        }
        parts.push(word);
        assert(parts.deep_view() =~= before.push(sanitized_word(w@)));
        assert(dv.take(i + 1).map_values(|w: Seq<char>| sanitized_word(w)) =~= dv.take(
            i as int,
        ).map_values(|w: Seq<char>| sanitized_word(w)).push(sanitized_word(dv[i as int])));
        i = i + 1;
    }
    assert(dv.take(ws.len() as int) =~= dv);
    join_spaced_words(&parts)
}

/// Any run of ASCII whitespace inside a name counts as one space: the
/// sanitized form does not change when the run is replaced by a space.
pub proof fn lemma_sanitized_spacing(a: Seq<char>, w: Seq<char>, b: Seq<char>)
    requires
        w.len() > 0,
        all_whitespace(w),
    ensures
        sanitized_name(a + w + b) == sanitized_name(a + seq![' '] + b),
{
    lemma_whitespace_separates(a, w, b);
    lemma_whitespace_separates(a, seq![' '], b);
}

/// Whitespace before or after a name does not change its sanitized form.
pub proof fn lemma_sanitized_padding(before: Seq<char>, s: Seq<char>, after: Seq<char>)
    requires
        all_whitespace(before),
        all_whitespace(after),
    ensures
        sanitized_name(before + s + after) == sanitized_name(s),
{
    let e = Seq::<char>::empty();
    lemma_words_of_whitespace(e);
    if after.len() > 0 {
        lemma_whitespace_separates(s, after, e);
        assert(s + after + e =~= s + after);
    } else {
        assert(s + after =~= s);
    }
    assert(words(s + after) == words(s)) by {
        assert(words(s) + words(e) =~= words(s));
    }
    if before.len() > 0 {
        lemma_whitespace_separates(e, before, s + after);
        assert(e + before + (s + after) =~= before + s + after);
        assert(words(e) + words(s + after) =~= words(s + after));
    } else {
        assert(before + s + after =~= s + after);
    }
}

/// Two names joined by a space sanitize to the two sanitized names joined
/// by a space: every word is kept, in order, and none is merged or dropped.
pub proof fn lemma_sanitized_concat(a: Seq<char>, b: Seq<char>)
    requires
        words(a).len() > 0,
        words(b).len() > 0,
    ensures
        sanitized_name(a + seq![' '] + b) == sanitized_name(a) + seq![' '] + sanitized_name(b),
{
    lemma_whitespace_separates(a, seq![' '], b);
    let f = |w: Seq<char>| sanitized_word(w);
    assert((words(a) + words(b)).map_values(f) =~= words(a).map_values(f) + words(b).map_values(f));
    lemma_join_spaced_concat(words(a).map_values(f), words(b).map_values(f));
}

/// A single word sanitizes to its initial made capital, then the rest of
/// the word lowercased: `i` becomes `İ`, `ı` becomes `I`, an ASCII letter
/// `a` to `z` its capital, and any other initial stays.
pub proof fn lemma_sanitized_single_word(w: Seq<char>)
    requires
        w.len() > 0,
        no_whitespace(w),
    ensures
        sanitized_name(w).len() == 1 + lowercase_of(w.drop_first()).len(),
        sanitized_name(w).drop_first() == lowercase_of(w.drop_first()),
        w[0] == 'i' ==> sanitized_name(w)[0] == '\u{130}',
        w[0] == '\u{131}' ==> sanitized_name(w)[0] == 'I',
        'a' <= w[0] <= 'z' && w[0] != 'i' ==> sanitized_name(w)[0] as u32 + 32 == w[0] as u32,
        !('a' <= w[0] <= 'z') && w[0] != '\u{131}' ==> sanitized_name(w)[0] == w[0],
{
    lemma_single_word(w);
    let f = |x: Seq<char>| sanitized_word(x);
    assert(seq![w].map_values(f) =~= seq![sanitized_word(w)]);
    assert(sanitized_word(w).drop_first() =~= lowercase_of(w.drop_first()));
}

} // verus!
