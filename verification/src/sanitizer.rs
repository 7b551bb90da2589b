//! Removal of tokens that hold shell metacharacters.
//!
//! This pass comes after validation and does not replace it: it drops whole tokens, and a
//! value that follows a value-taking flag is not escaped in any way.

use vstd::prelude::*;
use vstd::slice::slice_subrange;
use vstd::string::*;
use crate::text::to_chars;
use crate::tokens::{
    is_word, join, lemma_join_len_drop_last, lemma_join_tokens_len, lemma_tokens_are_words,
    lemma_tokens_of_join, span_texts, spans_within, token_spans, tokens, Span,
};

verus! {

/// Whether `t` holds a shell metacharacter: `;`, `|`, or `&&`.
pub open spec fn has_metacharacter(t: Seq<char>) -> bool {
    ||| exists|i: int| 0 <= i < t.len() && #[trigger] t[i] == ';'
    ||| exists|i: int| 0 <= i < t.len() && #[trigger] t[i] == '|'
    ||| exists|i: int| 0 <= i < t.len() - 1 && #[trigger] t[i] == '&' && t[i + 1] == '&'
}

/// The tokens that sanitizing keeps: those without a metacharacter.
pub open spec fn harmless() -> spec_fn(Seq<char>) -> bool {
    |t: Seq<char>| !has_metacharacter(t)
}

/// The sanitized form of `args`: its harmless tokens, in order, joined by single spaces.
pub open spec fn sanitized(args: Seq<char>) -> Seq<char> {
    join(tokens(args).filter(harmless()))
}

/// Decides [`has_metacharacter`].
pub fn holds_metacharacter(token: &[char]) -> (r: bool)
    ensures
        r == has_metacharacter(token@),
{
    let n: usize = token.len();
    let mut i: usize = 0;
    while i < n
        invariant
            n == token@.len(),
            i <= n,
            forall|j: int| 0 <= j < i ==> #[trigger] token@[j] != ';' && token@[j] != '|',
            forall|j: int| 0 <= j < i - 1 ==> !(#[trigger] token@[j] == '&' && token@[j + 1] == '&'),
        decreases n - i,
    {
        let c: char = token[i];
        if c == ';' || c == '|' {
            return true;
        }
        if c == '&' && i > 0 && token[i - 1] == '&' {
            assert(token@[i - 1] == '&' && token@[i - 1 + 1] == '&');
            return true;
        }
        i += 1;
    }
    false
}

/// Removes from `args` every token that holds a shell metacharacter and joins the others
/// with single spaces. Never fails; where no token is left the result is empty. The result
/// holds no metacharacter and is never longer than `args`.
pub fn sanitize(args: &str) -> (clean: String)
    ensures
        clean@ == sanitized(args@),
        !has_metacharacter(clean@),
        clean@.len() <= join(tokens(args@)).len() <= args@.len(),
{
    proof {
        lemma_sanitized_harmless(args@);
        lemma_sanitize_never_lengthens(args@);
    }
    let chars = to_chars(args);
    let spans = token_spans(&chars);
    let ghost ts = tokens(args@);
    let n: usize = spans.len();
    let mut clean = String::new();
    let mut empty = true;
    let mut i: usize = 0;
    proof {
        reveal(Seq::filter);
        assert(ts.take(0).len() == 0);
    }
    while i < n
        invariant
            chars@ == args@,
            ts == tokens(args@),
            span_texts(chars@, spans@) == ts,
            spans_within(spans@, chars@.len()),
            n == spans@.len(),
            i <= n,
            clean@ == join(ts.take(i as int).filter(harmless())),
            empty == (ts.take(i as int).filter(harmless()).len() == 0),
        decreases n - i,
    {
        let span: Span = spans[i];
        let token = slice_subrange(chars.as_slice(), span.start, span.end);
        let ghost before = ts.take(i as int).filter(harmless());
        proof {
            reveal(Seq::filter);
            assert(token@ == span_texts(chars@, spans@)[i as int]);
            assert(ts.take(i + 1).drop_last() == ts.take(i as int));
            assert(ts.take(i + 1).last() == token@);
        }
        if !holds_metacharacter(token) {
            if !empty {
                proof {
                    reveal_strlit(" ");
                    assert(" "@ == seq![' ']);
                }
                clean.append(" ");
            }
            clean.append(args.substring_char(span.start, span.end));
            empty = false;
            proof {
                let after = before.push(token@);
                assert(ts.take(i + 1).filter(harmless()) == after);
                assert(after.drop_last() == before);
                assert(after.last() == token@);
                if before.len() == 0 {
                    assert(clean@ == token@);
                }
            }
        }
        i += 1;
    }
    assert(ts.take(n as int) == ts);
    clean
}

/// The kept tokens are words without a metacharacter.
proof fn lemma_kept_tokens(ts: Seq<Seq<char>>)
    requires
        forall|k: int| 0 <= k < ts.len() ==> is_word(#[trigger] ts[k]),
    ensures
        forall|k: int|
            0 <= k < ts.filter(harmless()).len() ==> is_word(#[trigger] ts.filter(harmless())[k])
                && !has_metacharacter(ts.filter(harmless())[k]),
{
    let kept = ts.filter(harmless());
    assert forall|k: int| 0 <= k < kept.len() implies is_word(#[trigger] kept[k])
        && !has_metacharacter(kept[k]) by {
        ts.lemma_filter_pred(harmless(), k);
        assert(kept.contains(kept[k]));
        ts.lemma_filter_contains_rev(harmless(), kept[k]);
    }
}

/// Filtering keeps a sequence as it is when every element passes.
proof fn lemma_filter_keeps_all(ts: Seq<Seq<char>>)
    requires
        forall|k: int| 0 <= k < ts.len() ==> !has_metacharacter(#[trigger] ts[k]),
    ensures
        ts.filter(harmless()) == ts,
    decreases ts.len(),
{
    reveal(Seq::filter);
    if ts.len() > 0 {
        let front = ts.drop_last();
        assert forall|k: int| 0 <= k < front.len() implies !has_metacharacter(
            #[trigger] front[k],
        ) by {
            assert(front[k] == ts[k]);
        }
        lemma_filter_keeps_all(front);
        assert(front.push(ts.last()) == ts);
    }
}

/// Dropping tokens does not lengthen the joined text.
proof fn lemma_join_filter_len(ts: Seq<Seq<char>>)
    ensures
        join(ts.filter(harmless())).len() <= join(ts).len(),
    decreases ts.len(),
{
    reveal(Seq::filter);
    if ts.len() > 0 {
        let front = ts.drop_last();
        let kept = front.filter(harmless());
        lemma_join_filter_len(front);
        lemma_join_len_drop_last(ts);
        front.lemma_filter_len(harmless());
        if !has_metacharacter(ts.last()) {
            let all = kept.push(ts.last());
            assert(all.drop_last() == kept);
            assert(all.last() == ts.last());
        }
    }
}

/// Whether `t` holds none of the characters that make up a shell metacharacter.
pub open spec fn is_plain(t: Seq<char>) -> bool {
    forall|i: int| 0 <= i < t.len() ==> #[trigger] t[i] != ';' && t[i] != '|' && t[i] != '&'
}

/// Two texts without a metacharacter give one without when put side by side, unless an `&`
/// at the end of the first meets an `&` at the start of the second.
pub proof fn lemma_concat_harmless(a: Seq<char>, b: Seq<char>)
    requires
        !has_metacharacter(a),
        !has_metacharacter(b),
        a.len() == 0 || b.len() == 0 || a.last() != '&' || b[0] != '&',
    ensures
        !has_metacharacter(a + b),
{
    let s = a + b;
    let n = a.len() as int;
    assert forall|i: int| 0 <= i < s.len() implies #[trigger] s[i] != ';' && s[i] != '|' by {
        if i < n {
            assert(s[i] == a[i]);
        } else {
            assert(s[i] == b[i - n]);
        }
    }
    assert forall|i: int| 0 <= i < s.len() - 1 implies !(#[trigger] s[i] == '&' && s[i + 1]
        == '&') by {
        if i + 1 < n {
            assert(s[i] == a[i] && s[i + 1] == a[i + 1]);
        } else if i >= n {
            assert(s[i] == b[i - n] && s[i + 1] == b[i - n + 1]);
        } else {
            assert(s[i] == a.last() && s[i + 1] == b[0]);
        }
    }
}

/// A plain text holds no metacharacter.
pub proof fn lemma_plain_harmless(t: Seq<char>)
    requires
        is_plain(t),
    ensures
        !has_metacharacter(t),
{
}

/// A space between two texts without a metacharacter brings none in.
proof fn lemma_spaced_harmless(a: Seq<char>, b: Seq<char>)
    requires
        !has_metacharacter(a),
        !has_metacharacter(b),
    ensures
        !has_metacharacter(a + seq![' '] + b),
{
    assert(is_plain(seq![' ']));
    lemma_concat_harmless(a, seq![' ']);
    lemma_concat_harmless(a + seq![' '], b);
}

/// Joining tokens without a metacharacter gives a text without one.
proof fn lemma_join_harmless(ts: Seq<Seq<char>>)
    requires
        forall|k: int| 0 <= k < ts.len() ==> !has_metacharacter(#[trigger] ts[k]),
    ensures
        !has_metacharacter(join(ts)),
    decreases ts.len(),
{
    if ts.len() >= 2 {
        let front = ts.drop_last();
        assert forall|k: int| 0 <= k < front.len() implies !has_metacharacter(
            #[trigger] front[k],
        ) by {
            assert(front[k] == ts[k]);
        }
        lemma_join_harmless(front);
        lemma_spaced_harmless(join(front), ts.last());
    }
}

/// The tokens of the sanitized text are the harmless tokens of `args`, in order.
pub proof fn lemma_sanitized_tokens(args: Seq<char>)
    ensures
        tokens(sanitized(args)) == tokens(args).filter(harmless()),
{
    lemma_tokens_are_words(args);
    lemma_kept_tokens(tokens(args));
    lemma_tokens_of_join(tokens(args).filter(harmless()));
}

/// Sanitizing is idempotent: a sanitized text is left as it is.
pub proof fn lemma_sanitize_idempotent(args: Seq<char>)
    ensures
        sanitized(sanitized(args)) == sanitized(args),
{
    lemma_tokens_are_words(args);
    lemma_kept_tokens(tokens(args));
    lemma_sanitized_tokens(args);
    lemma_filter_keeps_all(tokens(args).filter(harmless()));
}

/// Sanitizing never lengthens: the result is no longer than all tokens of `args` joined by
/// single spaces, which in turn is no longer than `args`.
pub proof fn lemma_sanitize_never_lengthens(args: Seq<char>)
    ensures
        sanitized(args).len() <= join(tokens(args)).len() <= args.len(),
{
    lemma_join_filter_len(tokens(args));
    lemma_join_tokens_len(args);
}

/// No shell metacharacter is left in a sanitized text.
pub proof fn lemma_sanitized_harmless(args: Seq<char>)
    ensures
        !has_metacharacter(sanitized(args)),
{
    lemma_tokens_are_words(args);
    lemma_kept_tokens(tokens(args));
    lemma_join_harmless(tokens(args).filter(harmless()));
}

} // verus!
