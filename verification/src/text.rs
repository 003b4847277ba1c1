use vstd::prelude::*;

verus! {

/// The Unicode `White_Space` property, the definition of whitespace that
/// `char::is_whitespace`, `str::trim` and `str::split_whitespace` use.
pub open spec fn is_ws(c: char) -> bool {
    ||| ('\u{9}' <= c && c <= '\u{d}')
    ||| c == ' '
    ||| c == '\u{85}'
    ||| c == '\u{a0}'
    ||| c == '\u{1680}'
    ||| ('\u{2000}' <= c && c <= '\u{200a}')
    ||| c == '\u{2028}'
    ||| c == '\u{2029}'
    ||| c == '\u{202f}'
    ||| c == '\u{205f}'
    ||| c == '\u{3000}'
}

/// The whitespace of trimming and normalisation is exactly the Unicode
/// `White_Space` property, the set `char::is_whitespace` tests for: the 25
/// code points listed here (tab, line feed, vertical tab, form feed, carriage
/// return, space, next line, no-break space, ogham space mark, the spaces
/// U+2000 to U+200A, line and paragraph separators, narrow no-break space,
/// medium mathematical space and ideographic space).
pub proof fn law_whitespace_is_unicode_white_space(c: char)
    ensures
        is_ws(c) <==> set![
            0x9u32, 0xAu32, 0xBu32, 0xCu32, 0xDu32, 0x20u32, 0x85u32, 0xA0u32, 0x1680u32,
            0x2000u32, 0x2001u32, 0x2002u32, 0x2003u32, 0x2004u32, 0x2005u32, 0x2006u32,
            0x2007u32, 0x2008u32, 0x2009u32, 0x200Au32, 0x2028u32, 0x2029u32, 0x202Fu32,
            0x205Fu32, 0x3000u32,
        ].contains(c as u32),
{
}

/// Executable test for [`is_ws`].
pub fn is_whitespace_char(c: char) -> (res: bool)
    ensures
        res == is_ws(c),
{
    ('\u{9}' <= c && c <= '\u{d}') || c == ' ' || c == '\u{85}' || c == '\u{a0}' || c
        == '\u{1680}' || ('\u{2000}' <= c && c <= '\u{200a}') || c == '\u{2028}' || c
        == '\u{2029}' || c == '\u{202f}' || c == '\u{205f}' || c == '\u{3000}'
}

/// The characters of a string slice, in order.
pub fn chars_of(s: &str) -> (res: Vec<char>)
    ensures
        res@ == s@,
{
    let mut res: Vec<char> = Vec::new();
    for c in it: s.chars()
        invariant
            res@ == it.seq().take(it.index() as int),
    {
        res.push(c);
    }
    res
}


/// `String::push` appends the given character at the end of the string.
pub assume_specification[ String::push ](s: &mut String, ch: char)
    ensures
        final(s)@ == old(s)@.push(ch),
;

/// A string holding exactly the given characters.
pub fn string_of(cs: &Vec<char>) -> (res: String)
    ensures
        res@ == cs@,
{
    let mut res = String::new();
    let n = cs.len();
    for i in 0..n
        invariant
            n == cs@.len(),
            res@ == cs@.take(i as int),
    {
        res.push(cs[i]);
        assert(cs@.take(i + 1) == cs@.take(i as int).push(cs@[i as int]));
    }
    assert(cs@.take(n as int) == cs@);
    res
}

/// Number of whitespace characters at the start of `s`.
pub open spec fn leading_ws(s: Seq<char>) -> nat
    decreases s.len(),
{
    if s.len() > 0 && is_ws(s[0]) {
        1 + leading_ws(s.drop_first())
    } else {
        0
    }
}

/// Number of whitespace characters at the end of `s`.
pub open spec fn trailing_ws(s: Seq<char>) -> nat
    decreases s.len(),
{
    if s.len() > 0 && is_ws(s.last()) {
        1 + trailing_ws(s.drop_last())
    } else {
        0
    }
}

/// `s` with its leading and trailing whitespace removed (what `str::trim` gives).
pub open spec fn trim_spec(s: Seq<char>) -> Seq<char> {
    let t = s.skip(leading_ws(s) as int);
    t.take(t.len() - trailing_ws(t))
}


proof fn lemma_leading_ws(s: Seq<char>, i: int)
    requires
        0 <= i <= s.len(),
        forall|k: int| 0 <= k < i ==> is_ws(#[trigger] s[k]),
        i == s.len() || !is_ws(s[i]),
    ensures
        leading_ws(s) == i,
    decreases i,
{
    if i > 0 {
        let t = s.drop_first();
        assert forall|k: int| 0 <= k < i - 1 implies is_ws(#[trigger] t[k]) by {
            assert(t[k] == s[k + 1]);
        }
        if i - 1 < t.len() {
            assert(t[i - 1] == s[i]);
        }
        lemma_leading_ws(t, i - 1);
    }
}

proof fn lemma_trailing_ws(s: Seq<char>, i: int)
    requires
        0 <= i <= s.len(),
        forall|k: int| s.len() - i <= k < s.len() ==> is_ws(#[trigger] s[k]),
        i == s.len() || !is_ws(s[s.len() - i - 1]),
    ensures
        trailing_ws(s) == i,
    decreases i,
{
    if i > 0 {
        let t = s.drop_last();
        assert forall|k: int| t.len() - (i - 1) <= k < t.len() implies is_ws(#[trigger] t[k]) by {
            assert(t[k] == s[k]);
        }
        if i - 1 < t.len() {
            assert(t[t.len() - (i - 1) - 1] == s[s.len() - i - 1]);
        }
        lemma_trailing_ws(t, i - 1);
    }
}

/// The characters of `cs` without leading and trailing whitespace.
pub fn trim_chars(cs: &Vec<char>) -> (res: Vec<char>)
    ensures
        res@ == trim_spec(cs@),
{
    let n = cs.len();
    let mut start: usize = 0;
    while start < n && is_whitespace_char(cs[start])
        invariant
            n == cs@.len(),
            start <= n,
            forall|k: int| 0 <= k < start ==> is_ws(#[trigger] cs@[k]),
        decreases n - start,
    {
        start = start + 1;
    }
    proof {
        lemma_leading_ws(cs@, start as int);
    }
    let ghost t = cs@.skip(start as int);
    let mut end: usize = n;
    while end > start && is_whitespace_char(cs[end - 1])
        invariant
            n == cs@.len(),
            start <= end <= n,
            t == cs@.skip(start as int),
            forall|k: int| end <= k < n ==> is_ws(#[trigger] cs@[k]),
        decreases end - start,
    {
        end = end - 1;
    }
    proof {
        assert forall|k: int| t.len() - (n - end) <= k < t.len() implies is_ws(#[trigger] t[k]) by {
            assert(t[k] == cs@[k + start]);
        }
        if end > start {
            assert(t[t.len() - (n - end) - 1] == cs@[end - 1]);
        }
        lemma_trailing_ws(t, n - end);
    }
    let mut res: Vec<char> = Vec::new();
    let mut i = start;
    while i < end
        invariant
            n == cs@.len(),
            start <= i <= end <= n,
            res@ == cs@.subrange(start as int, i as int),
        decreases end - i,
    {
        res.push(cs[i]);
        i = i + 1;
    }
    assert(res@ == t.take(t.len() - trailing_ws(t)));
    res
}

/// `s` with leading and trailing whitespace removed, as `str::trim` does.
pub fn trim(s: &str) -> (res: String)
    ensures
        res@ == trim_spec(s@),
{
    let cs = chars_of(s);
    let t = trim_chars(&cs);
    string_of(&t)
}


proof fn lemma_leading_ws_props(s: Seq<char>)
    ensures
        leading_ws(s) <= s.len(),
        forall|k: int| 0 <= k < leading_ws(s) ==> is_ws(#[trigger] s[k]),
        leading_ws(s) < s.len() ==> !is_ws(s[leading_ws(s) as int]),
    decreases s.len(),
{
    if s.len() > 0 && is_ws(s[0]) {
        let t = s.drop_first();
        lemma_leading_ws_props(t);
        assert forall|k: int| 0 <= k < leading_ws(s) implies is_ws(#[trigger] s[k]) by {
            if k > 0 {
                assert(s[k] == t[k - 1]);
            }
        }
        if leading_ws(s) < s.len() {
            assert(s[leading_ws(s) as int] == t[leading_ws(t) as int]);
        }
    }
}

proof fn lemma_trailing_ws_props(s: Seq<char>)
    ensures
        trailing_ws(s) <= s.len(),
        forall|k: int| s.len() - trailing_ws(s) <= k < s.len() ==> is_ws(#[trigger] s[k]),
        trailing_ws(s) < s.len() ==> !is_ws(s[s.len() - trailing_ws(s) - 1]),
    decreases s.len(),
{
    if s.len() > 0 && is_ws(s.last()) {
        let t = s.drop_last();
        lemma_trailing_ws_props(t);
        assert forall|k: int| s.len() - trailing_ws(s) <= k < s.len() implies is_ws(
            #[trigger] s[k],
        ) by {
            if k < s.len() - 1 {
                assert(s[k] == t[k]);
            }
        }
        if trailing_ws(s) < s.len() {
            assert(s[s.len() - trailing_ws(s) - 1] == t[t.len() - trailing_ws(t) - 1]);
        }
    }
}

/// Trimmed text is empty or begins and ends with a character that is not whitespace.
pub proof fn law_trim_ends_not_whitespace(s: Seq<char>)
    ensures
        trim_spec(s).len() > 0 ==> !is_ws(trim_spec(s)[0]) && !is_ws(trim_spec(s).last()),
{
    let l = leading_ws(s);
    lemma_leading_ws_props(s);
    let u = s.skip(l as int);
    lemma_trailing_ws_props(u);
    let r = trim_spec(s);
    if r.len() > 0 {
        assert(r[0] == s[l as int]);
        assert(r.last() == u[u.len() - trailing_ws(u) - 1]);
    }
}

/// Trimming removes whitespace only, and only at the ends: the text is the
/// trimmed text with a run of whitespace before it and a run after it.
pub proof fn law_trim_removes_only_surrounding_whitespace(s: Seq<char>)
    ensures
        exists|before: Seq<char>, after: Seq<char>|
            s == before + trim_spec(s) + after && (forall|k: int|
                0 <= k < before.len() ==> is_ws(#[trigger] before[k])) && (forall|k: int|
                0 <= k < after.len() ==> is_ws(#[trigger] after[k])),
{
    let l = leading_ws(s);
    lemma_leading_ws_props(s);
    let u = s.skip(l as int);
    lemma_trailing_ws_props(u);
    let before = s.take(l as int);
    let after = u.skip(u.len() - trailing_ws(u));
    let t = trim_spec(s);
    assert(s == before + t + after);
    assert forall|k: int| 0 <= k < before.len() implies is_ws(#[trigger] before[k]) by {
        assert(before[k] == s[k]);
    }
    assert forall|k: int| 0 <= k < after.len() implies is_ws(#[trigger] after[k]) by {
        assert(after[k] == u[u.len() - trailing_ws(u) + k]);
    }
}

/// Trimming is idempotent: trimmed text is left as it is by a second trim.
pub proof fn law_trim_idempotent(s: Seq<char>)
    ensures
        trim_spec(trim_spec(s)) == trim_spec(s),
{
    let r = trim_spec(s);
    law_trim_ends_not_whitespace(s);
    lemma_leading_ws(r, 0);
    lemma_trailing_ws(r, 0);
    assert(r.skip(0) == r);
    assert(r.take(r.len() as int) == r);
}

/// The whitespace-separated words of `s`, in order (what `str::split_whitespace`
/// yields): the maximal runs of non-whitespace characters.
pub open spec fn words(s: Seq<char>) -> Seq<Seq<char>>
    decreases s.len(),
{
    if s.len() == 0 {
        Seq::empty()
    } else {
        let p = s.drop_last();
        let c = s.last();
        let ws = words(p);
        if is_ws(c) {
            ws
        } else if p.len() > 0 && !is_ws(p.last()) {
            ws.update(ws.len() - 1, ws.last().push(c))
        } else {
            ws.push(seq![c])
        }
    }
}

/// The words of `ws` joined with single spaces between them.
pub open spec fn join_words(ws: Seq<Seq<char>>) -> Seq<char>
    decreases ws.len(),
{
    if ws.len() == 0 {
        Seq::empty()
    } else if ws.len() == 1 {
        ws[0]
    } else {
        join_words(ws.drop_last()) + seq![' '] + ws.last()
    }
}

/// What `normalize_text` gives: the words of `raw` joined by single spaces,
/// or nothing when `raw` holds no word.
pub open spec fn normalize_spec(raw: Seq<char>) -> Option<Seq<char>> {
    if words(raw).len() == 0 {
        None
    } else {
        Some(join_words(words(raw)))
    }
}

/// A word is a non-empty run of non-whitespace characters.
pub open spec fn is_word(w: Seq<char>) -> bool {
    w.len() > 0 && forall|k: int| 0 <= k < w.len() ==> !is_ws(#[trigger] w[k])
}

/// Every element of `words(s)` is a word, and `s` ends inside a word exactly
/// when its last character is not whitespace.
pub proof fn lemma_words_are_words(s: Seq<char>)
    ensures
        forall|i: int| 0 <= i < words(s).len() ==> is_word(#[trigger] words(s)[i]),
        (s.len() > 0 && !is_ws(s.last())) ==> words(s).len() > 0,
    decreases s.len(),
{
    if s.len() > 0 {
        lemma_words_are_words(s.drop_last());
        let ws = words(s.drop_last());
        let c = s.last();
        if !is_ws(c) {
            if s.drop_last().len() > 0 && !is_ws(s.drop_last().last()) {
                let w = ws.last().push(c);
                assert(is_word(ws.last()));
                assert forall|k: int| 0 <= k < w.len() implies !is_ws(#[trigger] w[k]) by {
                    if k < w.len() - 1 {
                        assert(w[k] == ws.last()[k]);
                    }
                }
            } else {
                assert(is_word(seq![c]));
            }
        }
    }
}

proof fn lemma_join_extend_last(ws: Seq<Seq<char>>, c: char)
    requires
        ws.len() > 0,
    ensures
        join_words(ws.update(ws.len() - 1, ws.last().push(c))) == join_words(ws).push(c),
{
    let u = ws.update(ws.len() - 1, ws.last().push(c));
    if ws.len() > 1 {
        assert(u.drop_last() == ws.drop_last());
    }
}

proof fn lemma_join_push(ws: Seq<Seq<char>>, w: Seq<char>)
    requires
        ws.len() > 0,
    ensures
        join_words(ws.push(w)) == join_words(ws) + seq![' '] + w,
{
    assert(ws.push(w).drop_last() == ws);
}

/// The words of `raw` joined by single spaces; `None` when `raw` holds only
/// whitespace or nothing at all.
pub fn normalize_text(raw: &str) -> (res: Option<String>)
    ensures
        res.deep_view() == normalize_spec(raw@),
{
    let cs = chars_of(raw);
    let n = cs.len();
    let mut out = String::new();
    let mut in_word = false;
    let mut has_word = false;
    for i in 0..n
        invariant
            n == cs@.len(),
            out@ == join_words(words(cs@.take(i as int))),
            in_word == (i > 0 && !is_ws(cs@[i - 1])),
            has_word == (words(cs@.take(i as int)).len() > 0),
    {
        let c = cs[i];
        let ghost p = cs@.take(i as int);
        let ghost q = cs@.take(i + 1);
        assert(q.drop_last() == p);
        assert(q.last() == c);
        proof {
            lemma_words_are_words(p);
        }
        if is_whitespace_char(c) {
            in_word = false;
        } else {
            if in_word {
                proof {
                    lemma_join_extend_last(words(p), c);
                }
                out.push(c);
            } else {
                if has_word {
                    proof {
                        lemma_join_push(words(p), seq![c]);
                    }
                    out.push(' ');
                    out.push(c);
                    assert(out@ == join_words(words(p)) + seq![' '] + seq![c]);
                } else {
                    out.push(c);
                    assert(out@ == seq![c]);
                }
                has_word = true;
            }
            in_word = true;
        }
    }
    assert(cs@.take(n as int) == cs@);
    if has_word {
        Some(out)
    } else {
        None
    }
}


proof fn lemma_words_append_word(x: Seq<char>, w: Seq<char>)
    requires
        is_word(w),
        x.len() == 0 || is_ws(x.last()),
    ensures
        words(x + w) == words(x).push(w),
    decreases w.len(),
{
    if w.len() == 1 {
        assert((x + w).drop_last() == x);
        assert(w == seq![w[0]]);
    } else {
        let v = w.drop_last();
        assert(v[v.len() - 1] == w[w.len() - 2]);
        lemma_words_append_word(x, v);
        assert((x + w).drop_last() == x + v);
        assert((x + w).last() == w.last());
        assert(v.push(w.last()) == w);
    }
}

proof fn lemma_words_of_join(ws: Seq<Seq<char>>)
    requires
        forall|i: int| 0 <= i < ws.len() ==> is_word(#[trigger] ws[i]),
    ensures
        words(join_words(ws)) == ws,
    decreases ws.len(),
{
    if ws.len() == 1 {
        assert(Seq::<char>::empty() + ws[0] == ws[0]);
        lemma_words_append_word(Seq::empty(), ws[0]);
        assert(Seq::<Seq<char>>::empty().push(ws[0]) == ws);
    } else if ws.len() > 1 {
        let init = ws.drop_last();
        lemma_words_of_join(init);
        let x = join_words(init) + seq![' '];
        assert(x.drop_last() == join_words(init));
        assert(words(x) == words(join_words(init)));
        lemma_words_append_word(x, ws.last());
        assert(init.push(ws.last()) == ws);
    }
}

/// Normalising keeps the words of the text: the words of the normalised text
/// are exactly the words of the raw text.
pub proof fn law_normalize_keeps_words(raw: Seq<char>)
    ensures
        normalize_spec(raw) matches Some(t) ==> words(t) == words(raw),
{
    lemma_words_are_words(raw);
    if words(raw).len() > 0 {
        lemma_words_of_join(words(raw));
    }
}

/// Text in which whitespace occurs only as single spaces between words:
/// non-empty, with no whitespace at either end, and every whitespace
/// character a space between two characters that are not whitespace.
pub open spec fn single_spaced(t: Seq<char>) -> bool {
    &&& t.len() > 0
    &&& !is_ws(t[0])
    &&& !is_ws(t.last())
    &&& forall|i: int|
        0 <= i < t.len() && is_ws(#[trigger] t[i]) ==> t[i] == ' ' && 0 < i < t.len() - 1
            && !is_ws(t[i - 1]) && !is_ws(t[i + 1])
}

proof fn lemma_join_single_spaced(ws: Seq<Seq<char>>)
    requires
        ws.len() > 0,
        forall|i: int| 0 <= i < ws.len() ==> is_word(#[trigger] ws[i]),
    ensures
        single_spaced(join_words(ws)),
    decreases ws.len(),
{
    if ws.len() == 1 {
        assert(is_word(ws[0]));
    } else {
        let init = ws.drop_last();
        assert forall|i: int| 0 <= i < init.len() implies is_word(#[trigger] init[i]) by {
            assert(init[i] == ws[i]);
        }
        lemma_join_single_spaced(init);
        let j = join_words(init);
        let w = ws.last();
        assert(is_word(w));
        let t = join_words(ws);
        assert(t == j + seq![' '] + w);
        assert forall|i: int| 0 <= i < t.len() && is_ws(#[trigger] t[i]) implies t[i] == ' ' && 0
            < i < t.len() - 1 && !is_ws(t[i - 1]) && !is_ws(t[i + 1]) by {
            if i < j.len() {
                assert(t[i] == j[i]);
                assert(t[i - 1] == j[i - 1]);
                if i + 1 < j.len() {
                    assert(t[i + 1] == j[i + 1]);
                }
            } else if i == j.len() {
                assert(t[i - 1] == j.last());
                assert(t[i + 1] == w[0]);
            } else {
                assert(t[i] == w[i - j.len() - 1]);
            }
        }
        assert(t[0] == j[0]);
        assert(t.last() == w.last());
    }
}

/// Normalised text has whitespace only as single spaces between words, and
/// none at either end.
pub proof fn law_normalize_single_spaced(raw: Seq<char>)
    ensures
        normalize_spec(raw) matches Some(t) ==> single_spaced(t),
{
    lemma_words_are_words(raw);
    if words(raw).len() > 0 {
        lemma_join_single_spaced(words(raw));
    }
}

/// `s` ends inside a word.
pub open spec fn ends_in_word(s: Seq<char>) -> bool {
    s.len() > 0 && !is_ws(s.last())
}

/// Two texts with the same words that both end, or both do not end, inside a
/// word keep the same words when the same text is appended to each.
proof fn lemma_words_congruent(x: Seq<char>, y: Seq<char>, q: Seq<char>)
    requires
        words(x) == words(y),
        ends_in_word(x) == ends_in_word(y),
    ensures
        words(x + q) == words(y + q),
        ends_in_word(x + q) == ends_in_word(y + q),
    decreases q.len(),
{
    if q.len() == 0 {
        assert(x + q == x);
        assert(y + q == y);
    } else {
        let r = q.drop_last();
        lemma_words_congruent(x, y, r);
        assert((x + q).drop_last() == x + r);
        assert((y + q).drop_last() == y + r);
        assert((x + q).last() == q.last());
        assert((y + q).last() == q.last());
    }
}

proof fn lemma_words_all_ws(s: Seq<char>)
    requires
        forall|k: int| 0 <= k < s.len() ==> is_ws(#[trigger] s[k]),
    ensures
        words(s) == Seq::<Seq<char>>::empty(),
        !ends_in_word(s),
    decreases s.len(),
{
    if s.len() > 0 {
        let p = s.drop_last();
        assert forall|k: int| 0 <= k < p.len() implies is_ws(#[trigger] p[k]) by {
            assert(p[k] == s[k]);
        }
        lemma_words_all_ws(p);
        assert(is_ws(s[s.len() - 1]));
    }
}

proof fn lemma_words_append_ws(x: Seq<char>, t: Seq<char>)
    requires
        forall|k: int| 0 <= k < t.len() ==> is_ws(#[trigger] t[k]),
    ensures
        words(x + t) == words(x),
    decreases t.len(),
{
    if t.len() == 0 {
        assert(x + t == x);
    } else {
        let r = t.drop_last();
        assert forall|k: int| 0 <= k < r.len() implies is_ws(#[trigger] r[k]) by {
            assert(r[k] == t[k]);
        }
        lemma_words_append_ws(x, r);
        assert((x + t).drop_last() == x + r);
        assert((x + t).last() == t[t.len() - 1]);
    }
}

/// Whitespace around a text does not matter: adding any whitespace before and
/// after it leaves its normal form unchanged.
pub proof fn law_normalize_ignores_surrounding_whitespace(
    raw: Seq<char>,
    before: Seq<char>,
    after: Seq<char>,
)
    requires
        forall|k: int| 0 <= k < before.len() ==> is_ws(#[trigger] before[k]),
        forall|k: int| 0 <= k < after.len() ==> is_ws(#[trigger] after[k]),
    ensures
        normalize_spec(before + raw + after) == normalize_spec(raw),
{
    lemma_words_all_ws(before);
    lemma_words_all_ws(Seq::<char>::empty());
    lemma_words_congruent(before, Seq::<char>::empty(), raw);
    assert(Seq::<char>::empty() + raw == raw);
    lemma_words_append_ws(before + raw, after);
}

/// Doubled whitespace does not matter: adding a whitespace character right
/// after a whitespace character leaves the normal form unchanged.
pub proof fn law_normalize_ignores_doubled_whitespace(p: Seq<char>, c: char, q: Seq<char>)
    requires
        p.len() > 0,
        is_ws(p.last()),
        is_ws(c),
    ensures
        normalize_spec(p.push(c) + q) == normalize_spec(p + q),
{
    assert(p.push(c).drop_last() == p);
    lemma_words_congruent(p.push(c), p, q);
}

/// The kind of whitespace does not matter: two texts that differ only in
/// which whitespace character stands at some places (a tab for a space, say)
/// have the same normal form.
pub proof fn law_normalize_ignores_whitespace_kind(a: Seq<char>, b: Seq<char>)
    requires
        a.len() == b.len(),
        forall|k: int|
            0 <= k < a.len() ==> #[trigger] a[k] == b[k] || (is_ws(a[k]) && is_ws(b[k])),
    ensures
        normalize_spec(a) == normalize_spec(b),
        words(a) == words(b),
        ends_in_word(a) == ends_in_word(b),
    decreases a.len(),
{
    if a.len() > 0 {
        let pa = a.drop_last();
        let pb = b.drop_last();
        assert forall|k: int| 0 <= k < pa.len() implies #[trigger] pa[k] == pb[k] || (is_ws(pa[k])
            && is_ws(pb[k])) by {
            assert(pa[k] == a[k]);
            assert(pb[k] == b[k]);
        }
        law_normalize_ignores_whitespace_kind(pa, pb);
        assert(a[a.len() - 1] == b[b.len() - 1] || (is_ws(a[a.len() - 1]) && is_ws(b[b.len() - 1])));
    }
}

/// The characters of `s` that are not whitespace, in order.
pub open spec fn non_ws(s: Seq<char>) -> Seq<char>
    decreases s.len(),
{
    if s.len() == 0 {
        Seq::empty()
    } else if is_ws(s.last()) {
        non_ws(s.drop_last())
    } else {
        non_ws(s.drop_last()).push(s.last())
    }
}

/// The words of `ws` written one after the other.
pub open spec fn flatten_words(ws: Seq<Seq<char>>) -> Seq<char>
    decreases ws.len(),
{
    if ws.len() == 0 {
        Seq::empty()
    } else {
        flatten_words(ws.drop_last()) + ws.last()
    }
}

proof fn lemma_non_ws_concat(a: Seq<char>, b: Seq<char>)
    ensures
        non_ws(a + b) == non_ws(a) + non_ws(b),
    decreases b.len(),
{
    if b.len() == 0 {
        assert(a + b == a);
        assert(non_ws(a) + Seq::<char>::empty() == non_ws(a));
    } else {
        let r = b.drop_last();
        lemma_non_ws_concat(a, r);
        assert((a + b).drop_last() == a + r);
        assert((a + b).last() == b.last());
    }
}

proof fn lemma_non_ws_of_words(s: Seq<char>)
    ensures
        non_ws(s) == flatten_words(words(s)),
    decreases s.len(),
{
    if s.len() > 0 {
        let p = s.drop_last();
        let c = s.last();
        lemma_non_ws_of_words(p);
        let ws = words(p);
        if !is_ws(c) {
            if p.len() > 0 && !is_ws(p.last()) {
                lemma_words_are_words(p);
                let u = ws.update(ws.len() - 1, ws.last().push(c));
                assert(u.drop_last() == ws.drop_last());
                assert(flatten_words(ws) == flatten_words(ws.drop_last()) + ws.last());
                assert(flatten_words(u) == flatten_words(ws.drop_last()) + ws.last().push(c));
            } else {
                assert(ws.push(seq![c]).drop_last() == ws);
            }
        }
    }
}

proof fn lemma_non_ws_of_word(w: Seq<char>)
    requires
        forall|k: int| 0 <= k < w.len() ==> !is_ws(#[trigger] w[k]),
    ensures
        non_ws(w) == w,
    decreases w.len(),
{
    if w.len() > 0 {
        let r = w.drop_last();
        assert forall|k: int| 0 <= k < r.len() implies !is_ws(#[trigger] r[k]) by {
            assert(r[k] == w[k]);
        }
        lemma_non_ws_of_word(r);
        assert(!is_ws(w[w.len() - 1]));
        assert(r.push(w.last()) == w);
    }
}

proof fn lemma_non_ws_of_join(ws: Seq<Seq<char>>)
    requires
        forall|i: int| 0 <= i < ws.len() ==> is_word(#[trigger] ws[i]),
    ensures
        non_ws(join_words(ws)) == flatten_words(ws),
    decreases ws.len(),
{
    if ws.len() == 1 {
        assert(is_word(ws[0]));
        lemma_non_ws_of_word(ws[0]);
        assert(ws.drop_last() =~= Seq::<Seq<char>>::empty());
        assert(flatten_words(ws.drop_last()) == Seq::<char>::empty());
        assert(ws.last() == ws[0]);
        assert(Seq::<char>::empty() + ws[0] == ws[0]);
    } else if ws.len() > 1 {
        let init = ws.drop_last();
        assert forall|i: int| 0 <= i < init.len() implies is_word(#[trigger] init[i]) by {
            assert(init[i] == ws[i]);
        }
        lemma_non_ws_of_join(init);
        let w = ws.last();
        assert(is_word(ws[ws.len() - 1]));
        lemma_non_ws_of_word(w);
        let j = join_words(init);
        lemma_non_ws_concat(j + seq![' '], w);
        lemma_non_ws_concat(j, seq![' ']);
        let sp: Seq<char> = seq![' '];
        assert(sp.drop_last() =~= Seq::<char>::empty());
        assert(sp.last() == ' ');
        assert(non_ws(Seq::<char>::empty()) == Seq::<char>::empty());
        assert(non_ws(sp) == Seq::<char>::empty());
        assert(non_ws(j) + Seq::<char>::empty() == non_ws(j));
        assert(join_words(ws) == j + sp + w);
        assert(flatten_words(ws) == flatten_words(init) + w);
    }
}

/// Normalising keeps every character that is not whitespace, in order, and
/// adds none: the normalised text and the raw text have the same
/// non-whitespace characters in the same order.
pub proof fn law_normalize_keeps_non_whitespace(raw: Seq<char>)
    ensures
        normalize_spec(raw) matches Some(t) ==> non_ws(t) == non_ws(raw),
{
    lemma_words_are_words(raw);
    lemma_non_ws_of_words(raw);
    if words(raw).len() > 0 {
        lemma_non_ws_of_join(words(raw));
    }
}

/// Normalising is idempotent: normalising an already normalised text gives it back.
pub proof fn law_normalize_idempotent(raw: Seq<char>)
    ensures
        normalize_spec(raw) matches Some(t) ==> normalize_spec(t) == Some(t),
{
    law_normalize_keeps_words(raw);
}

proof fn lemma_has_word(s: Seq<char>)
    ensures
        words(s).len() > 0 <==> exists|k: int| 0 <= k < s.len() && !is_ws(#[trigger] s[k]),
    decreases s.len(),
{
    if s.len() > 0 {
        let p = s.drop_last();
        lemma_has_word(p);
        lemma_words_are_words(s);
        if exists|k: int| 0 <= k < p.len() && !is_ws(#[trigger] p[k]) {
            let k = choose|k: int| 0 <= k < p.len() && !is_ws(#[trigger] p[k]);
            assert(s[k] == p[k]);
        }
        if exists|k: int| 0 <= k < s.len() && !is_ws(#[trigger] s[k]) {
            let k = choose|k: int| 0 <= k < s.len() && !is_ws(#[trigger] s[k]);
            if k < p.len() {
                assert(p[k] == s[k]);
            }
        }
    }
}

/// Normalising yields a text exactly when the raw text holds a character that
/// is not whitespace.
pub proof fn law_normalize_some_iff_non_blank(raw: Seq<char>)
    ensures
        normalize_spec(raw) is Some <==> exists|k: int| 0 <= k < raw.len() && !is_ws(#[trigger] raw[k]),
{
    lemma_has_word(raw);
}


/// `s` begins with `prefix`.
pub open spec fn has_prefix(s: Seq<char>, prefix: Seq<char>) -> bool {
    prefix.len() <= s.len() && s.subrange(0, prefix.len() as int) == prefix
}

/// `s` ends with `suffix`.
pub open spec fn has_suffix(s: Seq<char>, suffix: Seq<char>) -> bool {
    suffix.len() <= s.len() && s.subrange(s.len() - suffix.len(), s.len() as int) == suffix
}

/// A text begins with a prefix exactly when it is the prefix followed by
/// something, and ends with a suffix exactly when it is something followed by
/// the suffix.
pub proof fn law_prefix_and_suffix(s: Seq<char>, t: Seq<char>)
    ensures
        has_prefix(s, t) <==> exists|r: Seq<char>| s == t + r,
        has_suffix(s, t) <==> exists|r: Seq<char>| s == r + t,
{
    if has_prefix(s, t) {
        assert(s == t + s.subrange(t.len() as int, s.len() as int));
    }
    if exists|r: Seq<char>| s == t + r {
        let r = choose|r: Seq<char>| s == t + r;
        assert(s.subrange(0, t.len() as int) == t);
    }
    if has_suffix(s, t) {
        assert(s == s.subrange(0, s.len() - t.len()) + t);
    }
    if exists|r: Seq<char>| s == r + t {
        let r = choose|r: Seq<char>| s == r + t;
        assert(s.subrange(s.len() - t.len(), s.len() as int) == t);
    }
}

/// Whether `a[from..from + b.len()]` equals `b`.
fn chars_match_at(a: &Vec<char>, from: usize, b: &Vec<char>) -> (res: bool)
    requires
        from + b@.len() <= a@.len(),
    ensures
        res == (a@.subrange(from as int, from + b@.len()) == b@),
{
    let n = b.len();
    let alen = a.len();
    let mut i: usize = 0;
    while i < n
        invariant
            n == b@.len(),
            alen == a@.len(),
            from + n <= a@.len(),
            i <= n,
            forall|k: int| 0 <= k < i ==> a@[from + k] == b@[k],
        decreases n - i,
    {
        if a[from + i] != b[i] {
            assert(a@.subrange(from as int, from + n)[i as int] != b@[i as int]);
            return false;
        }
        i = i + 1;
    }
    assert(a@.subrange(from as int, from + n) =~= b@);
    true
}

/// Whether the two strings hold the same characters.
pub fn str_equals(a: &str, b: &str) -> (res: bool)
    ensures
        res == (a@ == b@),
{
    let x = chars_of(a);
    let y = chars_of(b);
    if x.len() != y.len() {
        return false;
    }
    let r = chars_match_at(&x, 0, &y);
    assert(x@.subrange(0, y@.len() as int) =~= x@);
    r
}

/// Whether `s` begins with `prefix`, as `str::starts_with` with a string pattern.
pub fn str_starts_with(s: &str, prefix: &str) -> (res: bool)
    ensures
        res == has_prefix(s@, prefix@),
{
    let x = chars_of(s);
    let y = chars_of(prefix);
    if y.len() > x.len() {
        return false;
    }
    chars_match_at(&x, 0, &y)
}

/// Whether `s` ends with `suffix`, as `str::ends_with` with a string pattern.
pub fn str_ends_with(s: &str, suffix: &str) -> (res: bool)
    ensures
        res == has_suffix(s@, suffix@),
{
    let x = chars_of(s);
    let y = chars_of(suffix);
    if y.len() > x.len() {
        return false;
    }
    chars_match_at(&x, x.len() - y.len(), &y)
}


/// The part of `s` after its last `/` (all of `s` when it has none).
pub open spec fn last_segment(s: Seq<char>) -> Seq<char>
    decreases s.len(),
{
    if s.len() == 0 || s.last() == '/' {
        Seq::empty()
    } else {
        last_segment(s.drop_last()).push(s.last())
    }
}

/// The part of `s` after its last `/` (all of `s` when it has none).
pub fn after_last_slash(s: &str) -> (res: String)
    ensures
        res@ == last_segment(s@),
{
    let cs = chars_of(s);
    let n = cs.len();
    let mut start = n;
    assert(cs@.take(n as int) == cs@);
    assert(cs@.subrange(n as int, n as int) == Seq::<char>::empty());
    assert(cs@ + Seq::<char>::empty() == cs@);
    while start > 0 && cs[start - 1] != '/'
        invariant
            n == cs@.len(),
            start <= n,
            last_segment(cs@) == last_segment(cs@.take(start as int)) + cs@.subrange(
                start as int,
                n as int,
            ),
        decreases start,
    {
        let ghost p = cs@.take(start as int);
        assert(p.drop_last() == cs@.take(start - 1));
        assert(cs@.subrange(start - 1, n as int) == seq![p.last()] + cs@.subrange(
            start as int,
            n as int,
        ));
        start = start - 1;
    }
    assert(cs@.take(n as int) == cs@);
    assert(last_segment(cs@.take(start as int)) == Seq::<char>::empty());
    let mut out: Vec<char> = Vec::new();
    let mut i = start;
    while i < n
        invariant
            n == cs@.len(),
            start <= i <= n,
            out@ == cs@.subrange(start as int, i as int),
        decreases n - i,
    {
        out.push(cs[i]);
        i = i + 1;
    }
    string_of(&out)
}

/// Whether `c` is one of `'0'` to `'9'`.
pub open spec fn is_digit(c: char) -> bool {
    '0' <= c && c <= '9'
}

/// The number a string of decimal digits denotes, most significant first.
pub open spec fn decimal_value(s: Seq<char>) -> int
    decreases s.len(),
{
    if s.len() == 0 {
        0
    } else {
        decimal_value(s.drop_last()) * 10 + ((s.last() as u32) - ('0' as u32))
    }
}

/// The whole last segment is kept: whatever precedes the last `/`, the part
/// after it (which holds no `/`) is the last segment, and a text without `/`
/// is its own last segment.
pub proof fn law_last_segment_is_text_after_last_slash(p: Seq<char>, id: Seq<char>)
    requires
        forall|k: int| 0 <= k < id.len() ==> #[trigger] id[k] != '/',
    ensures
        last_segment(p.push('/') + id) == id,
        last_segment(id) == id,
    decreases id.len(),
{
    if id.len() == 0 {
        assert(p.push('/') + id == p.push('/'));
    } else {
        let r = id.drop_last();
        assert forall|k: int| 0 <= k < r.len() implies #[trigger] r[k] != '/' by {
            assert(r[k] == id[k]);
        }
        law_last_segment_is_text_after_last_slash(p, r);
        assert((p.push('/') + id).drop_last() == p.push('/') + r);
        assert((p.push('/') + id).last() == id.last());
        assert(id.last() == id[id.len() - 1]);
        assert(r.push(id.last()) == id);
    }
}

/// The decimal digit for `d` (which is below ten).
pub open spec fn digit_char(d: int) -> char {
    if d == 0 { '0' }
    else if d == 1 { '1' }
    else if d == 2 { '2' }
    else if d == 3 { '3' }
    else if d == 4 { '4' }
    else if d == 5 { '5' }
    else if d == 6 { '6' }
    else if d == 7 { '7' }
    else if d == 8 { '8' }
    else { '9' }
}

/// The decimal digits of the natural number `n`, most significant first,
/// without leading zeros.
pub open spec fn digits(n: nat) -> Seq<char>
    decreases n,
{
    if n < 10 {
        seq![digit_char(n as int)]
    } else {
        digits(n / 10).push(digit_char((n % 10) as int))
    }
}

proof fn lemma_digit_char(d: int)
    requires
        0 <= d < 10,
    ensures
        is_digit(digit_char(d)),
        (digit_char(d) as u32) - ('0' as u32) == d,
{
}

/// Decimal digits are right: `digits(n)` consists of decimal digits only,
/// reads back as `n`, and has no leading zero (it starts with `'0'` only when
/// `n` is zero, and then it is just `"0"`).
pub proof fn law_digits_denote_the_number(n: nat)
    ensures
        forall|k: int| 0 <= k < digits(n).len() ==> is_digit(#[trigger] digits(n)[k]),
        decimal_value(digits(n)) == n,
        digits(n).len() > 0,
        digits(n)[0] == '0' ==> n == 0 && digits(n).len() == 1,
    decreases n,
{
    if n < 10 {
        lemma_digit_char(n as int);
        let d = digits(n);
        assert(d.drop_last() =~= Seq::<char>::empty());
        assert(decimal_value(d.drop_last()) == 0);
        assert(decimal_value(d) == decimal_value(d.drop_last()) * 10 + ((d.last() as u32) - ('0' as u32)));
    } else {
        let q = n / 10;
        let r = n % 10;
        law_digits_denote_the_number(q);
        lemma_digit_char(r as int);
        let d = digits(n);
        assert(d.drop_last() == digits(q));
        assert(d.last() == digit_char(r as int));
        assert forall|k: int| 0 <= k < d.len() implies is_digit(#[trigger] d[k]) by {
            if k < d.len() - 1 {
                assert(d[k] == digits(q)[k]);
            }
        }
        assert(decimal_value(d) == decimal_value(digits(q)) * 10 + r);
        assert(q * 10 + r == n) by (nonlinear_arith)
            requires
                q == n / 10,
                r == n % 10,
        ;
        assert(d[0] == digits(q)[0]);
    }
}

/// The decimal text of an integer is right: a minus sign exactly for negative
/// numbers, followed by digits without leading zero that read back as the
/// number's magnitude.
pub proof fn law_decimal_denotes_the_number(i: int)
    ensures
        (decimal_spec(i)[0] == '-') <==> i < 0,
        i < 0 ==> decimal_value(decimal_spec(i).drop_first()) == -i,
        i >= 0 ==> decimal_value(decimal_spec(i)) == i,
        forall|k: int|
            (if i < 0 { 1int } else { 0int }) <= k < decimal_spec(i).len() ==> is_digit(
                #[trigger] decimal_spec(i)[k],
            ),
        decimal_spec(i).len() > (if i < 0 { 1int } else { 0int }),
{
    if i < 0 {
        let n = (-i) as nat;
        law_digits_denote_the_number(n);
        let d = decimal_spec(i);
        assert(d.drop_first() == digits(n));
        assert forall|k: int| 1 <= k < d.len() implies is_digit(#[trigger] d[k]) by {
            assert(d[k] == digits(n)[k - 1]);
        }
    } else {
        law_digits_denote_the_number(i as nat);
        assert(digits(i as nat)[0] != '-');
    }
}

/// The decimal text of `i`, as `i64`'s `Display` writes it: a minus sign
/// before the digits of negative numbers.
pub open spec fn decimal_spec(i: int) -> Seq<char> {
    if i < 0 {
        seq!['-'] + digits((-i) as nat)
    } else {
        digits(i as nat)
    }
}

fn digit(d: u64) -> (res: char)
    requires
        d < 10,
    ensures
        res == digit_char(d as int),
{
    if d == 0 { '0' }
    else if d == 1 { '1' }
    else if d == 2 { '2' }
    else if d == 3 { '3' }
    else if d == 4 { '4' }
    else if d == 5 { '5' }
    else if d == 6 { '6' }
    else if d == 7 { '7' }
    else if d == 8 { '8' }
    else { '9' }
}

fn push_digits(out: &mut String, n: u64)
    ensures
        final(out)@ == old(out)@ + digits(n as nat),
    decreases n,
{
    if n >= 10 {
        push_digits(out, n / 10);
    }
    out.push(digit(n % 10));
}

/// The decimal text of `i`.
pub fn decimal(i: i64) -> (res: String)
    ensures
        res@ == decimal_spec(i as int),
{
    let mut out = String::new();
    if i < 0 {
        out.push('-');
        let m: u64 = if i == i64::MIN {
            9223372036854775808u64
        } else {
            (-i) as u64
        };
        push_digits(&mut out, m);
    } else {
        push_digits(&mut out, i as u64);
    }
    out
}

} // verus!
