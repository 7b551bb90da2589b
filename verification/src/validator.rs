//! Validation of an argument string against an allow-list.
//!
//! The tokens are scanned from left to right. A token in flag position must be listed. A
//! value-taking flag must not come last: it consumes the token after it, which must have
//! the shape that the allow-list asks of its value and is not looked at otherwise. The first
//! violation makes the whole string invalid.

use vstd::prelude::*;
use vstd::slice::slice_subrange;
use crate::allow_list::{
    is_listed, kind_in, lemma_unrecognized_iff_unlisted, value_fits, AllowList, FlagView,
    TokenKind,
};
use crate::text::to_chars;
use crate::tokens::{
    is_word, lemma_tokens_space_first, lemma_tokens_word_first, span_texts, spans_within,
    token_spans, tokens, Span,
};

verus! {

/// Whether the scan of `ts` against `flags` accepts every token.
pub open spec fn valid_tokens(flags: Seq<FlagView>, ts: Seq<Seq<char>>) -> bool
    decreases ts.len(),
{
    if ts.len() == 0 {
        true
    } else {
        match kind_in(flags, ts[0]) {
            TokenKind::Unrecognized => false,
            TokenKind::Standalone => valid_tokens(flags, ts.skip(1)),
            TokenKind::ValueTaking => ts.len() >= 2 && value_fits(flags, ts[0], ts[1])
                && valid_tokens(flags, ts.skip(2)),
        }
    }
}

/// Whether the argument string `args` is valid under `flags`. The empty string is valid.
pub open spec fn valid_args(flags: Seq<FlagView>, args: Seq<char>) -> bool {
    valid_tokens(flags, tokens(args))
}

/// Whether the scan of `ts` takes the token at `i` as the value of the flag before it.
pub open spec fn is_value_position(flags: Seq<FlagView>, ts: Seq<Seq<char>>, i: int) -> bool
    decreases i,
{
    &&& 1 <= i < ts.len()
    &&& kind_in(flags, ts[i - 1]) == TokenKind::ValueTaking
    &&& !is_value_position(flags, ts, i - 1)
}

/// What the scan asks of the token at `i`: nothing of a value; of a flag, that it is
/// listed and, where it takes a value, that a token of the right shape follows.
pub open spec fn accepted_at(flags: Seq<FlagView>, ts: Seq<Seq<char>>, i: int) -> bool {
    is_value_position(flags, ts, i) || match kind_in(flags, ts[i]) {
        TokenKind::Unrecognized => false,
        TokenKind::Standalone => true,
        TokenKind::ValueTaking => i + 1 < ts.len() && value_fits(flags, ts[i], ts[i + 1]),
    }
}

/// Decides whether `args` is valid under `allow_list`: whether the scan accepts its tokens,
/// which is to say that it accepts the token at every position.
pub fn validate(args: &str, allow_list: &AllowList) -> (valid: bool)
    ensures
        valid == valid_args(allow_list@, args@),
        valid <==> forall|i: int|
            0 <= i < tokens(args@).len() ==> accepted_at(allow_list@, tokens(args@), i),
{
    proof {
        lemma_valid_positions(allow_list@, tokens(args@));
    }
    let chars = to_chars(args);
    let spans = token_spans(&chars);
    let ghost ts = tokens(args@);
    let n: usize = spans.len();
    let mut i: usize = 0;
    assert(ts.skip(0) == ts);
    while i < n
        invariant
            chars@ == args@,
            ts == tokens(args@),
            span_texts(chars@, spans@) == ts,
            spans_within(spans@, chars@.len()),
            n == spans@.len(),
            i <= n,
            valid_tokens(allow_list@, ts) == valid_tokens(allow_list@, ts.skip(i as int)),
            valid_tokens(allow_list@, ts) <==> forall|k: int|
                0 <= k < ts.len() ==> accepted_at(allow_list@, ts, k),
        decreases n - i,
    {
        let span: Span = spans[i];
        let token = slice_subrange(chars.as_slice(), span.start, span.end);
        assert(token@ == span_texts(chars@, spans@)[i as int]);
        assert(ts.skip(i as int)[0] == token@);
        match allow_list.classify_chars(token) {
            TokenKind::Unrecognized => {
                return false;
            },
            TokenKind::Standalone => {
                assert(ts.skip(i as int).skip(1) == ts.skip(i + 1));
                i += 1;
            },
            TokenKind::ValueTaking => {
                if n - i < 2 {
                    return false;
                }
                let next: Span = spans[i + 1];
                let value = slice_subrange(chars.as_slice(), next.start, next.end);
                assert(value@ == span_texts(chars@, spans@)[i + 1]);
                assert(ts.skip(i as int)[1] == value@);
                if !allow_list.accepts_value(token, value) {
                    return false;
                }
                assert(ts.skip(i as int).skip(2) == ts.skip(i + 2));
                i += 2;
            },
        }
    }
    true
}

proof fn lemma_value_position_shift(flags: Seq<FlagView>, ts: Seq<Seq<char>>, k: int, i: int)
    requires
        0 <= k <= i < ts.len(),
        !is_value_position(flags, ts, k),
    ensures
        is_value_position(flags, ts, i) == is_value_position(flags, ts.skip(k), i - k),
    decreases i,
{
    if i > k {
        lemma_value_position_shift(flags, ts, k, i - 1);
        assert(ts.skip(k)[i - k - 1] == ts[i - 1]);
    }
}

proof fn lemma_accepted_shift(flags: Seq<FlagView>, ts: Seq<Seq<char>>, k: int, i: int)
    requires
        0 <= k <= i < ts.len(),
        !is_value_position(flags, ts, k),
    ensures
        accepted_at(flags, ts, i) == accepted_at(flags, ts.skip(k), i - k),
{
    lemma_value_position_shift(flags, ts, k, i);
    assert(ts.skip(k)[i - k] == ts[i]);
    if i + 1 < ts.len() {
        assert(ts.skip(k)[i - k + 1] == ts[i + 1]);
    }
}

/// The scan accepts a token sequence exactly when it accepts the token at every position.
pub proof fn lemma_valid_positions(flags: Seq<FlagView>, ts: Seq<Seq<char>>)
    ensures
        valid_tokens(flags, ts) <==> forall|i: int|
            0 <= i < ts.len() ==> accepted_at(flags, ts, i),
    decreases ts.len(),
{
    if ts.len() == 0 {
    } else {
        let step: int = match kind_in(flags, ts[0]) {
            TokenKind::Unrecognized => 0,
            TokenKind::Standalone => 1,
            TokenKind::ValueTaking => 2,
        };
        if step == 0 || step > ts.len() || (step == 2 && !value_fits(flags, ts[0], ts[1])) {
            assert(!accepted_at(flags, ts, 0));
        } else {
            let rest = ts.skip(step);
            lemma_valid_positions(flags, rest);
            assert(!is_value_position(flags, ts, 0));
            assert(accepted_at(flags, ts, 0));
            if step == 2 {
                assert(is_value_position(flags, ts, 1));
            }
            if step < ts.len() {
                assert(!is_value_position(flags, ts, step));
            }
            if valid_tokens(flags, ts) {
                assert forall|i: int| 0 <= i < ts.len() implies accepted_at(flags, ts, i) by {
                    if i >= step {
                        lemma_accepted_shift(flags, ts, step, i);
                        assert(accepted_at(flags, rest, i - step));
                    }
                }
            }
            if forall|i: int| 0 <= i < ts.len() ==> accepted_at(flags, ts, i) {
                assert forall|j: int| 0 <= j < rest.len() implies accepted_at(flags, rest, j) by {
                    lemma_accepted_shift(flags, ts, step, j + step);
                    assert(accepted_at(flags, ts, j + step));
                }
            }
        }
    }
}

/// A token that is not listed makes the argument string invalid wherever it stands,
/// unless it stands where a value is expected.
pub proof fn lemma_unlisted_token_rejected(flags: Seq<FlagView>, args: Seq<char>, i: int)
    requires
        0 <= i < tokens(args).len(),
        !is_listed(flags, tokens(args)[i]),
        !is_value_position(flags, tokens(args), i),
    ensures
        !valid_args(flags, args),
{
    lemma_unrecognized_iff_unlisted(flags, tokens(args)[i]);
    lemma_valid_positions(flags, tokens(args));
    assert(!accepted_at(flags, tokens(args), i));
}

/// An argument string that ends with a value-taking flag is invalid, unless that last
/// token is itself the value of the flag before it.
pub proof fn lemma_missing_value_rejected(flags: Seq<FlagView>, args: Seq<char>)
    requires
        tokens(args).len() > 0,
        kind_in(flags, tokens(args).last()) == TokenKind::ValueTaking,
        !is_value_position(flags, tokens(args), tokens(args).len() - 1),
    ensures
        !valid_args(flags, args),
{
    lemma_valid_positions(flags, tokens(args));
    assert(!accepted_at(flags, tokens(args), tokens(args).len() - 1));
}

/// A value of the wrong shape behind a value-taking flag makes the argument string invalid.
pub proof fn lemma_misshapen_value_rejected(flags: Seq<FlagView>, args: Seq<char>, i: int)
    requires
        0 <= i < tokens(args).len() - 1,
        kind_in(flags, tokens(args)[i]) == TokenKind::ValueTaking,
        !is_value_position(flags, tokens(args), i),
        !value_fits(flags, tokens(args)[i], tokens(args)[i + 1]),
    ensures
        !valid_args(flags, args),
{
    lemma_valid_positions(flags, tokens(args));
    assert(!accepted_at(flags, tokens(args), i));
}

/// A standalone flag consumes no lookahead: taking one out of a token sequence, wherever
/// it stands as a flag, leaves the sequence as valid or invalid as it was.
pub proof fn lemma_standalone_flag_removable(flags: Seq<FlagView>, ts: Seq<Seq<char>>, i: int)
    requires
        0 <= i < ts.len(),
        kind_in(flags, ts[i]) == TokenKind::Standalone,
        !is_value_position(flags, ts, i),
    ensures
        valid_tokens(flags, ts.remove(i)) == valid_tokens(flags, ts),
    decreases ts.len(),
{
    let others = ts.remove(i);
    if i == 0 {
        assert(others == ts.skip(1));
    } else {
        assert(others[0] == ts[0]);
        assert(!is_value_position(flags, ts, 0));
        match kind_in(flags, ts[0]) {
            TokenKind::Unrecognized => {},
            TokenKind::Standalone => {
                lemma_value_position_shift(flags, ts, 1, i);
                assert(ts.skip(1)[i - 1] == ts[i]);
                lemma_standalone_flag_removable(flags, ts.skip(1), i - 1);
                assert(others.skip(1) == ts.skip(1).remove(i - 1));
            },
            TokenKind::ValueTaking => {
                assert(is_value_position(flags, ts, 1));
                assert(others[1] == ts[1]);
                lemma_value_position_shift(flags, ts, 2, i);
                assert(ts.skip(2)[i - 2] == ts[i]);
                lemma_standalone_flag_removable(flags, ts.skip(2), i - 2);
                assert(others.skip(2) == ts.skip(2).remove(i - 2));
            },
        }
    }
}

/// With a standalone flag in front, an argument string is valid exactly when the rest is.
pub proof fn lemma_standalone_flag_in_front(
    flags: Seq<FlagView>,
    flag: Seq<char>,
    rest: Seq<char>,
)
    requires
        is_word(flag),
        kind_in(flags, flag) == TokenKind::Standalone,
    ensures
        valid_args(flags, flag + seq![' '] + rest) == valid_args(flags, rest),
{
    let tail = seq![' '] + rest;
    assert(flag + seq![' '] + rest == flag + tail);
    lemma_tokens_word_first(flag, tail);
    lemma_tokens_space_first(' ', rest);
    assert((seq![flag] + tokens(rest)).skip(1) == tokens(rest));
}

} // verus!
