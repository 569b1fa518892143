//! Whitespace handling on text: what counts as whitespace, the words of a
//! text, and the two normal forms the service produces (single-spaced text
//! and text without trailing whitespace).

use vstd::prelude::*;
use vstd::string::*;

verus! {

/// `String::push` appends one character and leaves the rest of the string
/// as it was.
pub assume_specification[ String::push ](s: &mut String, c: char)
    ensures
        final(s)@ == old(s)@.push(c),
;

/// The characters with the Unicode property `White_Space`.
pub open spec fn is_whitespace(c: char) -> bool {
    ||| '\u{9}' <= c <= '\u{d}'
    ||| c == ' '
    ||| c == '\u{85}'
    ||| c == '\u{a0}'
    ||| c == '\u{1680}'
    ||| '\u{2000}' <= c <= '\u{200a}'
    ||| c == '\u{2028}'
    ||| c == '\u{2029}'
    ||| c == '\u{202f}'
    ||| c == '\u{205f}'
    ||| c == '\u{3000}'
}

/// Whether `c` is whitespace.
pub fn char_is_whitespace(c: char) -> (b: bool)
    ensures
        b == is_whitespace(c),
{
    ('\u{9}' <= c && c <= '\u{d}') || c == ' ' || c == '\u{85}' || c == '\u{a0}' || c
        == '\u{1680}' || ('\u{2000}' <= c && c <= '\u{200a}') || c == '\u{2028}' || c
        == '\u{2029}' || c == '\u{202f}' || c == '\u{205f}' || c == '\u{3000}'
}

/// No character of `s` is whitespace.
pub open spec fn whitespace_free(s: Seq<char>) -> bool {
    forall|i: int| 0 <= i < s.len() ==> !is_whitespace(#[trigger] s[i])
}

/// Where the word that ends `s` begins. It is `s.len()` where `s` is empty
/// or ends in whitespace, so that the word is then empty.
pub open spec fn last_word_start(s: Seq<char>) -> int
    decreases s.len(),
{
    if s.len() == 0 || is_whitespace(s.last()) {
        s.len() as int
    } else {
        last_word_start(s.drop_last())
    }
}

/// The last word starts inside the text, holds no whitespace, and has
/// whitespace or nothing before it.
pub proof fn lemma_last_word_start(s: Seq<char>)
    ensures
        0 <= last_word_start(s) <= s.len(),
        s.len() > 0 && !is_whitespace(s.last()) ==> last_word_start(s) < s.len(),
        whitespace_free(s.skip(last_word_start(s))),
        last_word_start(s) > 0 ==> is_whitespace(s[last_word_start(s) - 1]),
    decreases s.len(),
{
    if s.len() > 0 && !is_whitespace(s.last()) {
        let p = s.drop_last();
        lemma_last_word_start(p);
        let k = last_word_start(s);
        assert forall|i: int| 0 <= i < s.skip(k).len() implies !is_whitespace(
            #[trigger] s.skip(k)[i],
        ) by {
            if i < p.skip(k).len() {
                assert(s.skip(k)[i] == p.skip(k)[i]);
            }
        }
    }
}

/// The words of `s`: its maximal runs of characters that are not
/// whitespace, in the order in which they stand.
pub open spec fn words(s: Seq<char>) -> Seq<Seq<char>>
    decreases s.len(),
    via words_decreases
{
    if s.len() == 0 {
        Seq::empty()
    } else if is_whitespace(s.last()) {
        words(s.drop_last())
    } else {
        words(s.take(last_word_start(s))).push(s.skip(last_word_start(s)))
    }
}

#[via_fn]
proof fn words_decreases(s: Seq<char>) {
    lemma_last_word_start(s);
}

/// The words joined by one space each.
pub open spec fn join_words(ws: Seq<Seq<char>>) -> Seq<char>
    decreases ws.len(),
{
    if ws.len() == 0 {
        Seq::empty()
    } else if ws.len() == 1 {
        ws[0]
    } else {
        join_words(ws.drop_last()).push(' ') + ws.last()
    }
}

/// `s` with every run of whitespace between two words turned into one
/// space, and without the whitespace before its first and after its last
/// word.
pub open spec fn normalized(s: Seq<char>) -> Seq<char> {
    join_words(words(s))
}

/// `s` without the whitespace at its end.
pub open spec fn trimmed_end(s: Seq<char>) -> Seq<char>
    decreases s.len(),
{
    if s.len() > 0 && is_whitespace(s.last()) {
        trimmed_end(s.drop_last())
    } else {
        s
    }
}

/// How the words of a text change when one character is added at its end.
pub proof fn lemma_words_push(p: Seq<char>, c: char)
    ensures
        is_whitespace(c) ==> words(p.push(c)) == words(p),
        !is_whitespace(c) && p.len() > 0 && !is_whitespace(p.last()) ==> words(p).len() > 0
            && words(p.push(c)) == words(p).drop_last().push(words(p).last().push(c)),
        !is_whitespace(c) && (p.len() == 0 || is_whitespace(p.last())) ==> words(p.push(c))
            == words(p).push(seq![c]),
{
    let s = p.push(c);
    assert(s.drop_last() =~= p);
    if !is_whitespace(c) {
        lemma_last_word_start(p);
        let k = last_word_start(p);
        assert(s.take(k) =~= p.take(k));
        assert(s.skip(k) =~= p.skip(k).push(c));
        if p.len() == 0 || is_whitespace(p.last()) {
            assert(p.skip(k).push(c) =~= seq![c]);
        }
    }
}

/// Every word holds a character, and none of its characters is whitespace.
pub proof fn lemma_words_are_words(s: Seq<char>)
    ensures
        forall|i: int|
            0 <= i < words(s).len() ==> (#[trigger] words(s)[i]).len() > 0 && whitespace_free(
                words(s)[i],
            ),
    decreases s.len(),
{
    if s.len() > 0 && is_whitespace(s.last()) {
        lemma_words_are_words(s.drop_last());
        assert(words(s) == words(s.drop_last()));
    } else if s.len() > 0 {
        lemma_last_word_start(s);
        let k = last_word_start(s);
        lemma_words_are_words(s.take(k));
        assert forall|i: int| 0 <= i < words(s).len() implies (#[trigger] words(s)[i]).len() > 0
            && whitespace_free(words(s)[i]) by {
            if i < words(s.take(k)).len() {
                assert(words(s)[i] == words(s.take(k))[i]);
            } else {
                assert(words(s)[i] == s.skip(k));
            }
        }
    }
}

/// Joined words are empty only where there is no word, and begin and end
/// as their first and last word do.
pub proof fn lemma_join_words_ends(ws: Seq<Seq<char>>)
    requires
        forall|i: int| 0 <= i < ws.len() ==> (#[trigger] ws[i]).len() > 0,
    ensures
        ws.len() == 0 <==> join_words(ws).len() == 0,
        ws.len() > 0 ==> join_words(ws).last() == ws.last().last() && join_words(ws)[0]
            == ws[0][0],
    decreases ws.len(),
{
    if ws.len() >= 2 {
        lemma_join_words_ends(ws.drop_last());
    }
}

/// The normal form of a text is empty or begins and ends with a character
/// that is not whitespace.
pub proof fn lemma_normalized_ends(s: Seq<char>)
    ensures
        normalized(s).len() == 0 <==> words(s).len() == 0,
        normalized(s).len() > 0 ==> !is_whitespace(normalized(s).last()) && !is_whitespace(
            normalized(s)[0],
        ),
{
    lemma_words_are_words(s);
    lemma_join_words_ends(words(s));
}

/// How the normal form of a text changes when one character is added at
/// its end.
pub proof fn lemma_normalized_push(p: Seq<char>, c: char)
    ensures
        normalized(p.push(c)) == if is_whitespace(c) {
            normalized(p)
        } else if p.len() > 0 && !is_whitespace(p.last()) {
            normalized(p).push(c)
        } else if normalized(p).len() == 0 {
            seq![c]
        } else {
            normalized(p).push(' ').push(c)
        },
{
    lemma_words_push(p, c);
    lemma_normalized_ends(p);
    let w = words(p);
    let v = words(p.push(c));
    if !is_whitespace(c) {
        if p.len() > 0 && !is_whitespace(p.last()) {
            if w.len() > 1 {
                assert(v.drop_last() =~= w.drop_last());
            }
        } else if w.len() > 0 {
            assert(v.drop_last() =~= w);
        }
    }
}

/// The normal form of a text has the words of the text.
pub proof fn lemma_normalized_keeps_words(s: Seq<char>)
    ensures
        words(normalized(s)) == words(s),
    decreases s.len(),
{
    if s.len() > 0 {
        let p = s.drop_last();
        let c = s.last();
        let n = normalized(p);
        assert(s =~= p.push(c));
        lemma_normalized_keeps_words(p);
        lemma_normalized_push(p, c);
        lemma_normalized_ends(p);
        lemma_words_push(p, c);
        if !is_whitespace(c) {
            if p.len() > 0 && !is_whitespace(p.last()) {
                lemma_words_push(n, c);
            } else if n.len() == 0 {
                lemma_words_push(Seq::empty(), c);
                assert(Seq::<char>::empty().push(c) =~= seq![c]);
            } else {
                lemma_words_push(n, ' ');
                lemma_words_push(n.push(' '), c);
            }
        }
    }
}

/// Normalising a second time changes nothing.
pub proof fn lemma_normalized_idempotent(s: Seq<char>)
    ensures
        normalized(normalized(s)) == normalized(s),
{
    lemma_normalized_keeps_words(s);
}

/// Every whitespace in `s` is one space that stands between two
/// characters that are not whitespace.
pub open spec fn single_spaced(s: Seq<char>) -> bool {
    forall|i: int|
        0 <= i < s.len() && is_whitespace(#[trigger] s[i]) ==> s[i] == ' ' && 0 < i < s.len() - 1
            && !is_whitespace(s[i - 1]) && !is_whitespace(s[i + 1])
}

/// The normal form of a text is single-spaced.
pub proof fn lemma_normalized_single_spaced(s: Seq<char>)
    ensures
        single_spaced(normalized(s)),
    decreases s.len(),
{
    if s.len() > 0 {
        let p = s.drop_last();
        let c = s.last();
        let n = normalized(p);
        let m = normalized(s);
        assert(s =~= p.push(c));
        lemma_normalized_single_spaced(p);
        lemma_normalized_push(p, c);
        lemma_normalized_ends(p);
        lemma_words_push(p, c);
        if !is_whitespace(c) {
            assert forall|i: int| 0 <= i < m.len() && is_whitespace(#[trigger] m[i]) implies m[i]
                == ' ' && 0 < i < m.len() - 1 && !is_whitespace(m[i - 1]) && !is_whitespace(
                m[i + 1],
            ) by {
                if i < n.len() {
                    assert(m[i] == n[i]);
                    assert(m[i - 1] == n[i - 1]);
                    if i + 1 < n.len() {
                        assert(m[i + 1] == n[i + 1]);
                    }
                }
            }
        }
    }
}

/// A text without its trailing whitespace is the text up to some place,
/// after which only whitespace follows, and does not end in whitespace.
pub proof fn lemma_trimmed_end_is_prefix(s: Seq<char>)
    ensures
        trimmed_end(s).len() <= s.len(),
        trimmed_end(s) == s.take(trimmed_end(s).len() as int),
        forall|i: int| trimmed_end(s).len() <= i < s.len() ==> is_whitespace(#[trigger] s[i]),
        trimmed_end(s).len() > 0 ==> !is_whitespace(trimmed_end(s).last()),
    decreases s.len(),
{
    if s.len() > 0 && is_whitespace(s.last()) {
        let p = s.drop_last();
        lemma_trimmed_end_is_prefix(p);
        assert(p.take(trimmed_end(p).len() as int) =~= s.take(trimmed_end(p).len() as int));
        assert forall|i: int| trimmed_end(s).len() <= i < s.len() implies is_whitespace(
            #[trigger] s[i],
        ) by {
            if i < p.len() {
                assert(s[i] == p[i]);
            }
        }
    } else {
        assert(s.take(s.len() as int) =~= s);
    }
}

/// How a text without trailing whitespace changes when one character is
/// added at its end.
pub proof fn lemma_trimmed_end_push(p: Seq<char>, c: char)
    ensures
        trimmed_end(p.push(c)) == if is_whitespace(c) {
            trimmed_end(p)
        } else {
            p.push(c)
        },
{
    assert(p.push(c).drop_last() =~= p);
}

/// Whitespace added at the end of a text is trimmed away with the
/// whitespace that was there before.
pub proof fn lemma_trimmed_end_whitespace(s: Seq<char>, tail: Seq<char>)
    requires
        forall|i: int| 0 <= i < tail.len() ==> is_whitespace(#[trigger] tail[i]),
    ensures
        trimmed_end(s + tail) == trimmed_end(s),
    decreases tail.len(),
{
    if tail.len() > 0 {
        lemma_trimmed_end_whitespace(s, tail.drop_last());
        assert((s + tail).drop_last() =~= s + tail.drop_last());
    }
}

/// Collapses every run of whitespace in `text` into one space and removes
/// the whitespace at both ends: the result has the words of `text`, and
/// no whitespace but one space between each word and the next.
pub fn normalize_whitespace(text: &str) -> (r: String)
    ensures
        r@ == normalized(text@),
        words(r@) == words(text@),
        single_spaced(r@),
{
    let mut out = String::new();
    let mut in_word = false;
    for c in it: text.chars()
        invariant
            it.seq() == text@,
            out@ == normalized(text@.take(it.index() as int)),
            in_word == (it.index() > 0 && !is_whitespace(text@[it.index() - 1])),
    {
        proof {
            let p = text@.take(it.index() as int);
            assert(text@.take(it.index() + 1) =~= p.push(c));
            lemma_normalized_push(p, c);
        }
        if char_is_whitespace(c) {
            in_word = false;
        } else {
            if !in_word && !out.as_str().is_empty() {
                out.push(' ');
            }
            out.push(c);
            in_word = true;
        }
    }
    proof {
        assert(text@.take(text@.len() as int) =~= text@);
        lemma_normalized_keeps_words(text@);
        lemma_normalized_single_spaced(text@);
    }
    out
}

/// Removes the whitespace at the end of `text`: the result is `text` up to
/// its last character that is not whitespace.
pub fn trim_end(text: &str) -> (r: String)
    ensures
        r@ == trimmed_end(text@),
        r@.len() <= text@.len(),
        r@ == text@.take(r@.len() as int),
        forall|i: int| r@.len() <= i < text@.len() ==> is_whitespace(#[trigger] text@[i]),
        r@.len() > 0 ==> !is_whitespace(r@.last()),
{
    let mut out = String::new();
    let mut pending = String::new();
    for c in it: text.chars()
        invariant
            it.seq() == text@,
            out@ == trimmed_end(text@.take(it.index() as int)),
            out@ + pending@ == text@.take(it.index() as int),
    {
        proof {
            let p = text@.take(it.index() as int);
            assert(text@.take(it.index() + 1) =~= p.push(c));
            lemma_trimmed_end_push(p, c);
        }
        pending.push(c);
        if !char_is_whitespace(c) {
            out.append(pending.as_str());
            pending = String::new();
        }
    }
    proof {
        assert(text@.take(text@.len() as int) =~= text@);
        lemma_trimmed_end_is_prefix(text@);
    }
    out
}

} // verus!
