use vstd::prelude::*;

verus! {

broadcast use vstd::string::group_string_axioms;

/// The characters of `s`, in order.
pub fn chars_of(s: &str) -> (v: Vec<char>)
    ensures
        v@ == s@,
{
    let mut v: Vec<char> = Vec::new();
    for c in iter: s.chars()
        invariant
            v.len() == iter.index(),
            forall|i: int| 0 <= i < v.len() ==> v@[i] == iter.seq()[i],
    {
        v.push(c);
    }
    assert(v@ =~= s@);
    v
}


/// The ASCII whitespace characters: space, tab, line feed, form feed and
/// carriage return (the set `char::is_ascii_whitespace` accepts).
pub open spec fn is_ascii_whitespace(c: char) -> bool {
    c == ' ' || c == '\t' || c == '\n' || c == '\x0C' || c == '\r'
}

/// Whether `c` is ASCII whitespace, as `char::is_ascii_whitespace` says.
pub fn ascii_whitespace(c: char) -> (b: bool)
    ensures
        b == is_ascii_whitespace(c),
{
    c == ' ' || c == '\t' || c == '\n' || c == '\x0C' || c == '\r'
}

/// Reading `s` from the left: the words finished so far and the word being
/// read, where a word is a run of characters that are not ASCII whitespace.
pub open spec fn scan_words(s: Seq<char>) -> (Seq<Seq<char>>, Seq<char>)
    decreases s.len(),
{
    if s.len() == 0 {
        (seq![], seq![])
    } else {
        let (done, cur) = scan_words(s.drop_last());
        if is_ascii_whitespace(s.last()) {
            if cur.len() > 0 {
                (done.push(cur), seq![])
            } else {
                (done, cur)
            }
        } else {
            (done, cur.push(s.last()))
        }
    }
}

/// The words of `s`: its maximal runs of characters that are not ASCII
/// whitespace, in order, as `str::split_ascii_whitespace` yields them.
pub open spec fn words(s: Seq<char>) -> Seq<Seq<char>> {
    let (done, cur) = scan_words(s);
    if cur.len() > 0 {
        done.push(cur)
    } else {
        done
    }
}

/// A vector of characters is seen the same deep or shallow.
pub proof fn lemma_chars_deep_view(v: &Vec<char>)
    ensures
        v.deep_view() == v@,
{
    assert(v.deep_view() =~= v@);
}

/// Splits `s` into its words, the runs of characters between ASCII
/// whitespace; no word is empty.
pub fn split_ascii_words(s: &[char]) -> (r: Vec<Vec<char>>)
    ensures
        r.deep_view() == words(s@),
{
    let mut done: Vec<Vec<char>> = Vec::new();
    let mut cur: Vec<char> = Vec::new();
    let mut i: usize = 0;
    while i < s.len()
        invariant
            i <= s.len(),
            (done.deep_view(), cur@) == scan_words(s@.take(i as int)),
        decreases s.len() - i,
    {
        let c = s[i];
        assert(s@.take(i + 1).drop_last() =~= s@.take(i as int));
        assert(s@.take(i + 1).last() == c);
        if ascii_whitespace(c) {
            if cur.len() > 0 {
                let ghost old_done = done.deep_view();
                let w = cur;
                proof {
                    lemma_chars_deep_view(&w);
                }
                done.push(w);
                cur = Vec::new();
                assert(done.deep_view() =~= old_done.push(w@));
                assert(cur@ =~= Seq::<char>::empty());
            }
        } else {
            cur.push(c);
        }
        i = i + 1;
    }
    assert(s@.take(s.len() as int) =~= s@);
    if cur.len() > 0 {
        let ghost old_done = done.deep_view();
        let ghost w = cur@;
        proof {
            lemma_chars_deep_view(&cur);
        }
        done.push(cur);
        assert(done.deep_view() =~= old_done.push(w));
    }
    done
}


/// A copy of `v[from..to]`.
pub fn char_range(v: &[char], from: usize, to: usize) -> (r: Vec<char>)
    requires
        from <= to <= v.len(),
    ensures
        r@ == v@.subrange(from as int, to as int),
{
    let mut r: Vec<char> = Vec::new();
    let mut k: usize = from;
    while k < to
        invariant
            from <= k <= to <= v.len(),
            r@ == v@.subrange(from as int, k as int),
        decreases to - k,
    {
        r.push(v[k]);
        assert(v@.subrange(from as int, k + 1) =~= v@.subrange(from as int, k as int).push(
            v@[k as int],
        ));
        k = k + 1;
    }
    r
}

/// Whether `w` holds no ASCII whitespace.
pub open spec fn no_whitespace(w: Seq<char>) -> bool {
    forall|k: int| 0 <= k < w.len() ==> !is_ascii_whitespace(#[trigger] w[k])
}

proof fn lemma_scan_words_shape(s: Seq<char>)
    ensures
        forall|i: int|
            0 <= i < scan_words(s).0.len() ==> (#[trigger] scan_words(s).0[i]).len() > 0
                && no_whitespace(scan_words(s).0[i]),
        no_whitespace(scan_words(s).1),
    decreases s.len(),
{
    if s.len() > 0 {
        lemma_scan_words_shape(s.drop_last());
        let (done, cur) = scan_words(s.drop_last());
        if !is_ascii_whitespace(s.last()) {
            let next = cur.push(s.last());
            assert forall|k: int| 0 <= k < next.len() implies !is_ascii_whitespace(#[trigger] next[k]) by {
                if k < cur.len() {
                    assert(next[k] == cur[k]);
                }
            }
        }
    }
}

/// Every word is non-empty and holds no ASCII whitespace.
pub proof fn lemma_words_shape(s: Seq<char>)
    ensures
        forall|i: int|
            0 <= i < words(s).len() ==> (#[trigger] words(s)[i]).len() > 0 && no_whitespace(
                words(s)[i],
            ),
{
    lemma_scan_words_shape(s);
}


/// Whether every character of `w` is ASCII whitespace.
pub open spec fn all_whitespace(w: Seq<char>) -> bool {
    forall|k: int| 0 <= k < w.len() ==> is_ascii_whitespace(#[trigger] w[k])
}

/// Reading on after a point where no word is open: the words so far, then
/// the words of the rest.
proof fn lemma_scan_words_concat(s: Seq<char>, t: Seq<char>)
    requires
        scan_words(s).1.len() == 0,
    ensures
        scan_words(s + t) == (scan_words(s).0 + scan_words(t).0, scan_words(t).1),
    decreases t.len(),
{
    if t.len() == 0 {
        assert(s + t =~= s);
        assert(scan_words(s).0 + scan_words(t).0 =~= scan_words(s).0);
    } else {
        lemma_scan_words_concat(s, t.drop_last());
        assert((s + t).drop_last() =~= s + t.drop_last());
        assert((s + t).last() == t.last());
        let (a, c0) = scan_words(s);
        let (d, c) = scan_words(t.drop_last());
        if is_ascii_whitespace(t.last()) && c.len() > 0 {
            assert((a + d).push(c) =~= a + d.push(c));
        }
    }
}

/// A run of whitespace closes the word being read and opens none.
proof fn lemma_scan_words_whitespace_run(a: Seq<char>, w: Seq<char>)
    requires
        w.len() > 0,
        all_whitespace(w),
    ensures
        scan_words(a + w) == (words(a), Seq::<char>::empty()),
    decreases w.len(),
{
    assert((a + w).drop_last() =~= a + w.drop_last());
    assert((a + w).last() == w.last());
    assert(is_ascii_whitespace(w[w.len() - 1]));
    if w.len() == 1 {
        assert(a + w.drop_last() =~= a);
    } else {
        lemma_scan_words_whitespace_run(a, w.drop_last());
    }
}

/// The words of `s + t`, where no word of `s` runs on into `t`.
proof fn lemma_words_concat(s: Seq<char>, t: Seq<char>)
    requires
        scan_words(s).1.len() == 0,
    ensures
        words(s + t) == words(s) + words(t),
{
    lemma_scan_words_concat(s, t);
    let (a, c0) = scan_words(s);
    let (d, c) = scan_words(t);
    if c.len() > 0 {
        assert((a + d).push(c) =~= a + d.push(c));
    }
}

/// A text of whitespace only has no words.
pub proof fn lemma_words_of_whitespace(w: Seq<char>)
    requires
        all_whitespace(w),
    ensures
        words(w) == Seq::<Seq<char>>::empty(),
{
    if w.len() > 0 {
        lemma_scan_words_whitespace_run(seq![], w);
        assert(Seq::<char>::empty() + w =~= w);
    }
}

/// A non-empty run of ASCII whitespace only separates words: the words of
/// `a`, the run and `b` are the words of `a` followed by those of `b`.
pub proof fn lemma_whitespace_separates(a: Seq<char>, w: Seq<char>, b: Seq<char>)
    requires
        w.len() > 0,
        all_whitespace(w),
    ensures
        words(a + w + b) == words(a) + words(b),
{
    lemma_scan_words_whitespace_run(a, w);
    lemma_words_concat(a + w, b);
    let (d, c) = scan_words(a + w);
    assert(words(a + w) == d);
}

/// `words` joined by single spaces.
pub open spec fn join_spaced(ws: Seq<Seq<char>>) -> Seq<char>
    decreases ws.len(),
{
    if ws.len() == 0 {
        seq![]
    } else if ws.len() == 1 {
        ws[0]
    } else {
        join_spaced(ws.drop_last()) + seq![' '] + ws.last()
    }
}

/// Joining two non-empty lists of words: the first joined, a space, then
/// the second joined.
pub proof fn lemma_join_spaced_concat(x: Seq<Seq<char>>, y: Seq<Seq<char>>)
    requires
        x.len() > 0,
        y.len() > 0,
    ensures
        join_spaced(x + y) == join_spaced(x) + seq![' '] + join_spaced(y),
    decreases y.len(),
{
    let xy = x + y;
    assert(xy.drop_last() =~= x + y.drop_last());
    assert(xy.last() == y.last());
    if y.len() == 1 {
        assert(x + y.drop_last() =~= x);
    } else {
        lemma_join_spaced_concat(x, y.drop_last());
        assert(join_spaced(x) + seq![' '] + join_spaced(y.drop_last()) + seq![' '] + y.last()
            =~= join_spaced(x) + seq![' '] + (join_spaced(y.drop_last()) + seq![' '] + y.last()));
    }
}

/// A non-empty text without ASCII whitespace is a single word.
pub proof fn lemma_single_word(w: Seq<char>)
    requires
        w.len() > 0,
        no_whitespace(w),
    ensures
        words(w) == seq![w],
{
    lemma_scan_no_whitespace(w);
}

proof fn lemma_scan_no_whitespace(w: Seq<char>)
    requires
        no_whitespace(w),
    ensures
        scan_words(w) == (Seq::<Seq<char>>::empty(), w),
    decreases w.len(),
{
    if w.len() > 0 {
        assert(no_whitespace(w.drop_last()));
        lemma_scan_no_whitespace(w.drop_last());
        assert(!is_ascii_whitespace(w[w.len() - 1]));
        assert(w.drop_last().push(w.last()) =~= w);
    }
}

/// Appends `w` to `out`.
pub fn push_all(out: &mut Vec<char>, w: &[char])
    ensures
        final(out)@ == old(out)@ + w@,
{
    let ghost start = out@;
    let mut i: usize = 0;
    while i < w.len()
        invariant
            i <= w.len(),
            out@ == start + w@.take(i as int),
        decreases w.len() - i,
    {
        out.push(w[i]);
        assert(w@.take(i + 1) =~= w@.take(i as int).push(w@[i as int]));
        i = i + 1;
    }
    assert(w@.take(w.len() as int) =~= w@);
}

/// Joins `ws` with single spaces between them.
pub fn join_spaced_words(ws: &Vec<Vec<char>>) -> (r: String)
    ensures
        r@ == join_spaced(ws.deep_view()),
{
    let mut out: Vec<char> = Vec::new();
    let mut i: usize = 0;
    while i < ws.len()
        invariant
            i <= ws.len(),
            out@ == join_spaced(ws.deep_view().take(i as int)),
        decreases ws.len() - i,
    {
        let ghost dv = ws.deep_view();
        proof {
            lemma_chars_deep_view(&ws[i as int]);
            assert(dv.take(i + 1).drop_last() =~= dv.take(i as int));
            assert(dv.take(i + 1).last() == ws@[i as int]@);
        }
        if i > 0 {
            out.push(' ');
        } else {
            assert(out@ =~= Seq::<char>::empty());
        }
        push_all(&mut out, ws[i].as_slice());
        proof {
            if i == 0 {
                assert(out@ =~= ws@[0]@);
            } else {
                assert(out@ =~= join_spaced(dv.take(i as int)) + seq![' '] + ws@[i as int]@);
            }
        }
        i = i + 1;
    }
    assert(ws.deep_view().take(ws.len() as int) =~= ws.deep_view());
    string_from_chars(out.as_slice())
}

/// What `str::to_lowercase` gives for a string of the given characters: the
/// standard library's Unicode lowercase mapping, which depends on the
/// characters alone.
pub uninterp spec fn lowercase_of(s: Seq<char>) -> Seq<char>;

/// Calls `str::to_lowercase`. The result is the named `lowercase_of` of the
/// argument's characters; nothing else is claimed of the Unicode mapping.
#[verifier::external_body]
pub(crate) fn to_lowercase(s: &str) -> (r: String)
    ensures
        r@ == lowercase_of(s@),
{
    s.to_lowercase()
}

/// Calls `String::push`, which appends the character to the string.
#[verifier::external_body]
pub(crate) fn push_char(s: &mut String, c: char)
    ensures
        final(s)@ == old(s)@.push(c),
{
    s.push(c);
}

/// A `String` of the given characters, in order.
pub fn string_from_chars(chars: &[char]) -> (r: String)
    ensures
        r@ == chars@,
{
    let mut r = String::new();
    let mut i: usize = 0;
    while i < chars.len()
        invariant
            i <= chars.len(),
            r@ == chars@.take(i as int),
        decreases chars.len() - i,
    {
        push_char(&mut r, chars[i]);
        assert(chars@.take(i + 1) =~= chars@.take(i as int).push(chars@[i as int]));
        i = i + 1;
    }
    assert(chars@.take(chars.len() as int) =~= chars@);
    r
}

} // verus!
