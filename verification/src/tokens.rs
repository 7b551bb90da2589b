//! Splitting an argument string into whitespace-delimited tokens, and joining tokens back.

use vstd::prelude::*;
use vstd::string::*;
use crate::text::{is_space, is_whitespace, texts, to_chars};

verus! {

/// Whether `t` holds no whitespace.
pub open spec fn has_no_space(t: Seq<char>) -> bool {
    forall|i: int| 0 <= i < t.len() ==> !is_space(#[trigger] t[i])
}

/// A token: a non-empty run of characters none of which is whitespace.
pub open spec fn is_word(t: Seq<char>) -> bool {
    &&& t.len() > 0
    &&& has_no_space(t)
}

/// Length of the longest prefix of `s` that holds no whitespace.
pub open spec fn word_len(s: Seq<char>) -> nat
    decreases s.len(),
{
    if s.len() == 0 || is_space(s[0]) {
        0
    } else {
        1 + word_len(s.drop_first())
    }
}

/// The tokens of `s`: its maximal runs of non-whitespace characters, from left to right.
pub open spec fn tokens(s: Seq<char>) -> Seq<Seq<char>>
    decreases s.len(),
{
    if s.len() == 0 {
        Seq::empty()
    } else if is_space(s[0]) {
        tokens(s.drop_first())
    } else {
        let n = word_len(s) as int;
        proof {
            lemma_word_len_bounds(s);
        }
        seq![s.take(n)] + tokens(s.skip(n))
    }
}

/// The tokens joined by single spaces.
pub open spec fn join(ts: Seq<Seq<char>>) -> Seq<char>
    decreases ts.len(),
{
    if ts.len() == 0 {
        Seq::empty()
    } else if ts.len() == 1 {
        ts[0]
    } else {
        join(ts.drop_last()) + seq![' '] + ts.last()
    }
}

/// `word_len(s)` does not exceed the length of `s`, and is not zero where `s` starts with
/// a character that is no whitespace.
pub proof fn lemma_word_len_bounds(s: Seq<char>)
    ensures
        word_len(s) <= s.len(),
        s.len() > 0 && !is_space(s[0]) ==> word_len(s) >= 1,
    decreases s.len(),
{
    if s.len() > 0 && !is_space(s[0]) {
        lemma_word_len_bounds(s.drop_first());
    }
}

/// `word_len(s)` is the position of the first whitespace character of `s`, or its length
/// when it holds none.
pub proof fn lemma_word_len_is(s: Seq<char>, n: int)
    requires
        0 <= n <= s.len(),
        forall|j: int| 0 <= j < n ==> !is_space(#[trigger] s[j]),
        n == s.len() || is_space(s[n]),
    ensures
        word_len(s) == n,
    decreases n,
{
    if n > 0 {
        let rest = s.drop_first();
        assert forall|j: int| 0 <= j < n - 1 implies !is_space(#[trigger] rest[j]) by {
            assert(rest[j] == s[j + 1]);
        }
        lemma_word_len_is(rest, n - 1);
    }
}

/// No character before position `word_len(s)` is whitespace.
pub proof fn lemma_word_len_prefix(s: Seq<char>)
    ensures
        forall|j: int| 0 <= j < word_len(s) ==> !is_space(#[trigger] s[j]),
        word_len(s) == s.len() || is_space(s[word_len(s) as int]),
    decreases s.len(),
{
    if s.len() > 0 && !is_space(s[0]) {
        let rest = s.drop_first();
        lemma_word_len_prefix(rest);
        lemma_word_len_bounds(rest);
        assert forall|j: int| 0 <= j < word_len(s) implies !is_space(#[trigger] s[j]) by {
            if j > 0 {
                assert(s[j] == rest[j - 1]);
            }
        }
        if word_len(s) < s.len() {
            assert(s[word_len(s) as int] == rest[word_len(rest) as int]);
        }
    }
}

/// Every token is a word.
pub proof fn lemma_tokens_are_words(s: Seq<char>)
    ensures
        forall|k: int| 0 <= k < tokens(s).len() ==> is_word(#[trigger] tokens(s)[k]),
    decreases s.len(),
{
    if s.len() == 0 {
        assert(tokens(s).len() == 0);
    } else if is_space(s[0]) {
        lemma_tokens_are_words(s.drop_first());
        assert(tokens(s) == tokens(s.drop_first()));
    } else {
        let n = word_len(s) as int;
        lemma_word_len_bounds(s);
        lemma_word_len_prefix(s);
        let rest = tokens(s.skip(n));
        assert(tokens(s) == seq![s.take(n)] + rest);
        lemma_tokens_are_words(s.skip(n));
        assert(is_word(s.take(n)));
        assert forall|k: int| 0 <= k < tokens(s).len() implies is_word(
            #[trigger] tokens(s)[k],
        ) by {
            if k > 0 {
                assert(tokens(s)[k] == rest[k - 1]);
            }
        }
    }
}

/// A word in front of a text that is empty or starts with whitespace is its first token.
pub proof fn lemma_tokens_word_first(word: Seq<char>, rest: Seq<char>)
    requires
        is_word(word),
        rest.len() == 0 || is_space(rest[0]),
    ensures
        tokens(word + rest) == seq![word] + tokens(rest),
{
    let s = word + rest;
    let n = word.len() as int;
    assert forall|j: int| 0 <= j < n implies !is_space(#[trigger] s[j]) by {
        assert(s[j] == word[j]);
    }
    if n < s.len() {
        assert(s[n] == rest[0]);
    }
    lemma_word_len_is(s, n);
    assert(s[0] == word[0]);
    assert(s.take(n) == word);
    assert(s.skip(n) == rest);
}

/// Whitespace in front of a text adds no token.
pub proof fn lemma_tokens_space_first(c: char, rest: Seq<char>)
    requires
        is_space(c),
    ensures
        tokens(seq![c] + rest) == tokens(rest),
{
    assert((seq![c] + rest).drop_first() == rest);
}

/// Joining puts the first token in front, then a space and the others joined.
pub proof fn lemma_join_front(first: Seq<char>, others: Seq<Seq<char>>)
    requires
        others.len() > 0,
    ensures
        join(seq![first] + others) == first + seq![' '] + join(others),
    decreases others.len(),
{
    let all = seq![first] + others;
    assert(all.drop_last() == seq![first] + others.drop_last());
    assert(all.last() == others.last());
    if others.len() == 1 {
        assert(all.drop_last() == seq![first]);
        assert(join(all.drop_last()) == first);
    } else {
        lemma_join_front(first, others.drop_last());
        assert(join(all) == (first + seq![' '] + join(others.drop_last())) + seq![' ']
            + others.last());
        assert(join(all) == first + seq![' '] + (join(others.drop_last()) + seq![' ']
            + others.last()));
    }
}

/// Splitting undoes joining: the tokens of joined words are those words.
pub proof fn lemma_tokens_of_join(words: Seq<Seq<char>>)
    requires
        forall|k: int| 0 <= k < words.len() ==> is_word(#[trigger] words[k]),
    ensures
        tokens(join(words)) == words,
    decreases words.len(),
{
    if words.len() == 0 {
    } else if words.len() == 1 {
        lemma_tokens_word_first(words[0], Seq::empty());
        assert(words[0] + Seq::<char>::empty() == words[0]);
        assert(seq![words[0]] + Seq::<Seq<char>>::empty() == words);
    } else {
        let first = words[0];
        let others = words.drop_first();
        assert(words == seq![first] + others);
        assert forall|k: int| 0 <= k < others.len() implies is_word(#[trigger] others[k]) by {
            assert(others[k] == words[k + 1]);
        }
        lemma_join_front(first, others);
        lemma_tokens_of_join(others);
        let tail = seq![' '] + join(others);
        assert(first + seq![' '] + join(others) == first + tail);
        lemma_tokens_word_first(first, tail);
        lemma_tokens_space_first(' ', join(others));
    }
}

/// A space between two texts separates their tokens: those of the whole are those of the
/// first followed by those of the second.
pub proof fn lemma_tokens_spaced(a: Seq<char>, b: Seq<char>)
    ensures
        tokens(a + seq![' '] + b) == tokens(a) + tokens(b),
    decreases a.len(),
{
    let s = a + seq![' '] + b;
    if a.len() == 0 {
        assert(s == seq![' '] + b);
        lemma_tokens_space_first(' ', b);
        assert(tokens(a) + tokens(b) == tokens(b));
    } else if is_space(a[0]) {
        assert(s[0] == a[0]);
        assert(s.drop_first() == a.drop_first() + seq![' '] + b);
        lemma_tokens_spaced(a.drop_first(), b);
    } else {
        let n = word_len(a) as int;
        lemma_word_len_bounds(a);
        lemma_word_len_prefix(a);
        assert forall|j: int| 0 <= j < n implies !is_space(#[trigger] s[j]) by {
            assert(s[j] == a[j]);
        }
        if n < a.len() {
            assert(s[n] == a[n]);
        } else {
            assert(s[n] == ' ');
        }
        lemma_word_len_is(s, n);
        assert(s[0] == a[0]);
        assert(s.take(n) == a.take(n));
        assert(s.skip(n) == a.skip(n) + seq![' '] + b);
        lemma_tokens_spaced(a.skip(n), b);
        assert(seq![a.take(n)] + (tokens(a.skip(n)) + tokens(b)) == seq![a.take(n)] + tokens(
            a.skip(n),
        ) + tokens(b));
    }
}

/// A word is its own single token.
pub proof fn lemma_tokens_of_word(word: Seq<char>)
    requires
        is_word(word),
    ensures
        tokens(word) == seq![word],
{
    lemma_tokens_word_first(word, Seq::empty());
    assert(word + Seq::<char>::empty() == word);
    assert(seq![word] + Seq::<Seq<char>>::empty() == seq![word]);
}

/// A word behind a text and a space is one more token.
pub proof fn lemma_tokens_push_word(text: Seq<char>, word: Seq<char>)
    requires
        is_word(word),
    ensures
        tokens(text + seq![' '] + word) == tokens(text).push(word),
{
    lemma_tokens_spaced(text, word);
    lemma_tokens_of_word(word);
}

/// Leaving the last token out does not lengthen the joined text.
pub proof fn lemma_join_len_drop_last(ts: Seq<Seq<char>>)
    requires
        ts.len() > 0,
    ensures
        join(ts.drop_last()).len() <= join(ts).len(),
{
    if ts.len() == 1 {
        assert(ts.drop_last().len() == 0);
    }
}

/// Joining a text's tokens gives a text no longer than it.
pub proof fn lemma_join_tokens_len(s: Seq<char>)
    ensures
        join(tokens(s)).len() <= s.len(),
    decreases s.len(),
{
    if s.len() == 0 {
    } else if is_space(s[0]) {
        lemma_join_tokens_len(s.drop_first());
    } else {
        let n = word_len(s) as int;
        lemma_word_len_bounds(s);
        lemma_word_len_prefix(s);
        let word = s.take(n);
        let rest = s.skip(n);
        if rest.len() == 0 {
            assert(tokens(rest).len() == 0);
            assert(seq![word] + tokens(rest) == seq![word]);
        } else {
            assert(rest[0] == s[n]);
            assert(tokens(rest) == tokens(rest.drop_first()));
            lemma_join_tokens_len(rest.drop_first());
            if tokens(rest).len() == 0 {
                assert(seq![word] + tokens(rest) == seq![word]);
            } else {
                lemma_join_front(word, tokens(rest));
            }
        }
    }
}

/// A half-open range of character positions.
#[derive(Clone, Copy, Debug)]
pub struct Span {
    pub start: usize,
    pub end: usize,
}

/// The characters of `s` that `span` covers.
pub open spec fn span_text(s: Seq<char>, span: Span) -> Seq<char> {
    s.subrange(span.start as int, span.end as int)
}

/// The texts that `spans` cover in `s`, in order.
pub open spec fn span_texts(s: Seq<char>, spans: Seq<Span>) -> Seq<Seq<char>> {
    Seq::new(spans.len(), |k: int| span_text(s, spans[k]))
}

/// Every span lies within a text of length `len`.
pub open spec fn spans_within(spans: Seq<Span>, len: nat) -> bool {
    forall|k: int| 0 <= k < spans.len() ==> (#[trigger] spans[k]).start <= spans[k].end <= len
}

/// Finds where the tokens of `chars` lie.
pub fn token_spans(chars: &Vec<char>) -> (spans: Vec<Span>)
    ensures
        spans_within(spans@, chars@.len()),
        span_texts(chars@, spans@) == tokens(chars@),
{
    let n: usize = chars.len();
    let mut spans: Vec<Span> = Vec::new();
    let mut i: usize = 0;
    let ghost s = chars@;
    assert(s.skip(0) == s);
    while i < n
        invariant
            s == chars@,
            n == s.len(),
            i <= n,
            spans_within(spans@, s.len()),
            span_texts(s, spans@) + tokens(s.skip(i as int)) == tokens(s),
        decreases n - i,
    {
        if is_whitespace(chars[i]) {
            assert(s.skip(i as int).drop_first() == s.skip(i + 1));
            i += 1;
        } else {
            let start: usize = i;
            while i < n && !is_whitespace(chars[i])
                invariant
                    s == chars@,
                    n == s.len(),
                    start <= i <= n,
                    forall|j: int| start <= j < i ==> !is_space(#[trigger] s[j]),
                decreases n - i,
            {
                i += 1;
            }
            let span = Span { start, end: i };
            proof {
                let tail = s.skip(start as int);
                let len = i - start;
                assert forall|j: int| 0 <= j < len implies !is_space(#[trigger] tail[j]) by {
                    assert(tail[j] == s[start + j]);
                }
                lemma_word_len_is(tail, len);
                assert(tail.take(len) == span_text(s, span));
                assert(tail.skip(len) == s.skip(i as int));
                assert(span_texts(s, spans@.push(span)) == span_texts(s, spans@) + seq![
                    span_text(s, span),
                ]);
            }
            spans.push(span);
        }
    }
    assert(s.skip(n as int).len() == 0);
    assert(span_texts(s, spans@) + Seq::<Seq<char>>::empty() == span_texts(s, spans@));
    spans
}

/// Splits `args` into its tokens.
pub fn tokenize(args: &str) -> (words: Vec<String>)
    ensures
        texts(words@) == tokens(args@),
{
    let chars = to_chars(args);
    let spans = token_spans(&chars);
    let n: usize = spans.len();
    let mut words: Vec<String> = Vec::new();
    let mut i: usize = 0;
    while i < n
        invariant
            chars@ == args@,
            spans_within(spans@, chars@.len()),
            n == spans@.len(),
            i <= n,
            texts(words@) == span_texts(chars@, spans@).take(i as int),
        decreases n - i,
    {
        let span: Span = spans[i];
        let word = args.substring_char(span.start, span.end);
        let ghost before = texts(words@);
        words.push(String::from_str(word));
        proof {
            let all = span_texts(chars@, spans@);
            assert(word@ == all[i as int]);
            assert(texts(words@) =~= before.push(word@));
            assert(all.take(i + 1) =~= all.take(i as int).push(all[i as int]));
        }
        i += 1;
    }
    assert(span_texts(chars@, spans@).take(n as int) == span_texts(chars@, spans@));
    words
}

} // verus!
