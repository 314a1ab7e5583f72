//! What holds of every scan.

use vstd::prelude::*;
use crate::grammar::{
    eof_token, in_class, is_digit, is_word_start, lemma_run_end_bounds, lemma_step_advances,
    message, newlines, reached, run_end, run_from, scan, step, CharClass, Run, Step,
};
use crate::lexer::{scanned, Lexer};
use crate::token::{token_views, Token, TokenView};
use crate::token_type::TokenType;

verus! {

/// Newline counts add up over adjacent ranges.
pub proof fn lemma_newlines_split(src: Seq<char>, a: int, b: int, c: int)
    requires
        a <= b <= c,
    ensures
        newlines(src, a, c) == newlines(src, a, b) + newlines(src, b, c),
    decreases c - b,
{
    if b < c {
        lemma_newlines_split(src, a, b, c - 1);
    }
}

/// A maximal run of digits, word characters or comment text holds no
/// newline.
pub proof fn lemma_run_newlines(src: Seq<char>, pos: int, class: CharClass)
    requires
        0 <= pos <= src.len(),
        !(class is StringBody),
    ensures
        pos <= run_end(src, pos, class) <= src.len(),
        newlines(src, pos, run_end(src, pos, class)) == 0,
    decreases src.len() - pos,
{
    if pos < src.len() && in_class(class, src[pos]) {
        lemma_run_newlines(src, pos + 1, class);
        lemma_newlines_split(src, pos, pos + 1, run_end(src, pos + 1, class));
        assert(newlines(src, pos, pos + 1) == newlines(src, pos, pos) + 0);
    }
}

/// The tokens that a step can make, and how it moves the line counter: a
/// token's lexeme is the text the step consumed, its line is the line the
/// step began on, it is never the end-of-input token, and the line counter
/// grows by the newlines consumed.
pub proof fn lemma_step(src: Seq<char>, pos: int, line: nat)
    requires
        0 <= pos < src.len(),
    ensures
        pos < reached(step(src, pos, line)) <= src.len(),
        match step(src, pos, line) {
            Step::Skip { next, line: after } => after == line + newlines(src, pos, next),
            Step::Emit { token, next, line: after } => {
                &&& after == line + newlines(src, pos, next)
                &&& token.lexeme == src.subrange(pos, next)
                &&& token.line == line
                &&& token.kind != TokenType::EOF
            },
            Step::Fail { line: after, at, .. } => after == line + newlines(src, pos, at),
        },
{
    lemma_step_advances(src, pos, line);
    let c = src[pos];
    let end = reached(step(src, pos, line));
    assert(newlines(src, pos, pos + 1) == newlines(src, pos, pos) + if c == '\n' {
        1nat
    } else {
        0nat
    });
    lemma_newlines_split(src, pos, pos + 1, end);
    if c == '/' {
        if pos + 1 < src.len() && src[pos + 1] == '/' {
            lemma_run_newlines(src, pos + 2, CharClass::CommentBody);
            lemma_newlines_split(src, pos + 1, pos + 2, end);
            assert(newlines(src, pos + 1, pos + 2) == newlines(src, pos + 1, pos + 1) + 0);
        }
    } else if c == '"' {
        let close = run_end(src, pos + 1, CharClass::StringBody);
        lemma_run_end_bounds(src, pos + 1, CharClass::StringBody);
        if close < src.len() {
            lemma_newlines_split(src, pos + 1, close, close + 1);
            assert(newlines(src, close, close + 1) == newlines(src, close, close) + 0);
        }
    } else if is_digit(c) {
        let whole = run_end(src, pos + 1, CharClass::Digit);
        lemma_run_newlines(src, pos + 1, CharClass::Digit);
        if whole + 1 < src.len() && src[whole] == '.' && is_digit(src[whole + 1]) {
            lemma_run_newlines(src, whole + 1, CharClass::Digit);
            lemma_newlines_split(src, pos + 1, whole, end);
            lemma_newlines_split(src, whole, whole + 1, end);
            assert(newlines(src, whole, whole + 1) == newlines(src, whole, whole) + 0);
        }
    } else if is_word_start(c) {
        lemma_run_newlines(src, pos + 1, CharClass::Word);
    }
}

/// Whether `run`, begun at `pos` on line `line`, is laid out as every run
/// is: one span per token; the spans non-empty, in order, apart from each
/// other and between `pos` and the cursor; each token's lexeme the text of
/// its span and its line the line of the span's first character; no token
/// the end-of-input token; and the line counter the line of the cursor.
pub open spec fn well_laid(src: Seq<char>, pos: int, line: nat, run: Run) -> bool {
    &&& run.spans.len() == run.tokens.len()
    &&& pos <= run.end <= src.len()
    &&& run.line == line + newlines(src, pos, run.end)
    &&& run.error is None ==> run.end == src.len()
    &&& run.error is Some ==> pos < run.end
    &&& forall|i: int|
        0 <= i < run.tokens.len() ==> {
            &&& pos <= (#[trigger] run.spans[i]).0 < run.spans[i].1 <= run.end
            &&& run.tokens[i].lexeme == src.subrange(run.spans[i].0, run.spans[i].1)
            &&& run.tokens[i].line == line + newlines(src, pos, run.spans[i].0)
            &&& run.tokens[i].kind != TokenType::EOF
        }
    &&& forall|i: int, j: int|
        0 <= i < j < run.tokens.len() ==> (#[trigger] run.spans[i]).1 <= (
        #[trigger] run.spans[j]).0
}

/// Every run is well laid out.
pub proof fn law_runs_are_well_laid(src: Seq<char>, start: int, pos: int, line: nat)
    requires
        0 <= pos <= src.len(),
    ensures
        well_laid(src, pos, line, run_from(src, start, pos, line)),
    decreases src.len() - pos,
{
    let run = run_from(src, start, pos, line);
    if pos < src.len() {
        lemma_step(src, pos, line);
        match step(src, pos, line) {
            Step::Skip { next, line: after } => {
                law_runs_are_well_laid(src, pos, next, after);
                lemma_newlines_split(src, pos, next, run.end);
                assert forall|i: int| 0 <= i < run.tokens.len() implies run.tokens[i].line == line
                    + newlines(src, pos, (#[trigger] run.spans[i]).0) by {
                    lemma_newlines_split(src, pos, next, run.spans[i].0);
                }
            },
            Step::Emit { token, next, line: after } => {
                let rest = run_from(src, pos, next, after);
                law_runs_are_well_laid(src, pos, next, after);
                lemma_newlines_split(src, pos, next, run.end);
                assert forall|i: int| 0 <= i < run.tokens.len() implies {
                    &&& pos <= (#[trigger] run.spans[i]).0 < run.spans[i].1 <= run.end
                    &&& run.tokens[i].lexeme == src.subrange(run.spans[i].0, run.spans[i].1)
                    &&& run.tokens[i].line == line + newlines(src, pos, run.spans[i].0)
                    &&& run.tokens[i].kind != TokenType::EOF
                } by {
                    if i > 0 {
                        assert(run.spans[i] == rest.spans[i - 1]);
                        assert(run.tokens[i] == rest.tokens[i - 1]);
                        lemma_newlines_split(src, pos, next, rest.spans[i - 1].0);
                    }
                }
                assert forall|i: int, j: int| 0 <= i < j < run.tokens.len() implies (
                #[trigger] run.spans[i]).1 <= (#[trigger] run.spans[j]).0 by {
                    assert(run.spans[j] == rest.spans[j - 1]);
                    if i > 0 {
                        assert(run.spans[i] == rest.spans[i - 1]);
                    }
                }
            },
            Step::Fail { .. } => {},
        }
    }
}

/// Re-slicing the text at a token's span gives the token's lexeme, for every
/// token of a scan from the beginning.
pub proof fn law_lexemes_are_slices(src: Seq<char>, i: int)
    requires
        0 <= i < run_from(src, 0, 0, 1).tokens.len(),
    ensures
        ({
            let run = run_from(src, 0, 0, 1);
            &&& 0 <= run.spans[i].0 < run.spans[i].1 <= src.len()
            &&& run.tokens[i].lexeme == src.subrange(run.spans[i].0, run.spans[i].1)
        }),
{
    law_runs_are_well_laid(src, 0, 0, 1);
}

/// A token's line is one more than the number of newlines before its first
/// character, for every token of a scan from the beginning.
pub proof fn law_lines_count_newlines(src: Seq<char>, i: int)
    requires
        0 <= i < run_from(src, 0, 0, 1).tokens.len(),
    ensures
        ({
            let run = run_from(src, 0, 0, 1);
            run.tokens[i].line == 1 + newlines(src, 0, run.spans[i].0)
        }),
{
    law_runs_are_well_laid(src, 0, 0, 1);
}

/// No character belongs to two tokens: of two tokens of a scan, the earlier
/// one's span ends where the later one's begins, or before.
pub proof fn law_tokens_do_not_overlap(src: Seq<char>, i: int, j: int)
    requires
        0 <= i < j < run_from(src, 0, 0, 1).tokens.len(),
    ensures
        run_from(src, 0, 0, 1).spans[i].1 <= run_from(src, 0, 0, 1).spans[j].0,
{
    law_runs_are_well_laid(src, 0, 0, 1);
}

/// Lines do not go back: of two tokens of a scan, the later one stands on
/// the earlier one's line or on a later line.
pub proof fn law_lines_do_not_decrease(src: Seq<char>, i: int, j: int)
    requires
        0 <= i < j < run_from(src, 0, 0, 1).tokens.len(),
    ensures
        run_from(src, 0, 0, 1).tokens[i].line <= run_from(src, 0, 0, 1).tokens[j].line,
{
    law_runs_are_well_laid(src, 0, 0, 1);
    let run = run_from(src, 0, 0, 1);
    assert(run.spans[i].1 <= run.spans[j].0);
    lemma_newlines_split(src, 0, run.spans[i].0, run.spans[j].0);
}

/// A successful scan ends with the end-of-input token, which has no text and
/// stands on the line where the text ends, and holds no other such token.
pub proof fn law_one_eof_last(src: Seq<char>)
    requires
        scan(src) is Ok,
    ensures
        ({
            let tokens = scan(src)->Ok_0;
            &&& tokens.len() >= 1
            &&& tokens.last() == eof_token(1 + newlines(src, 0, src.len() as int))
            &&& forall|i: int|
                0 <= i < tokens.len() - 1 ==> (#[trigger] tokens[i]).kind != TokenType::EOF
        }),
{
    law_runs_are_well_laid(src, 0, 0, 1);
    let run = run_from(src, 0, 0, 1);
    let tokens = scan(src)->Ok_0;
    assert forall|i: int| 0 <= i < tokens.len() - 1 implies (#[trigger] tokens[i]).kind
        != TokenType::EOF by {
        let span = run.spans[i];
        assert(tokens[i] == run.tokens[i]);
    }
}

/// A failed scan reports the line on which it stopped.
pub proof fn law_failure_line(src: Seq<char>)
    requires
        scan(src) is Err,
    ensures
        ({
            let run = run_from(src, 0, 0, 1);
            &&& 0 < run.end <= src.len()
            &&& scan(src)->Err_0.0 == 1 + newlines(src, 0, run.end)
        }),
{
    law_runs_are_well_laid(src, 0, 0, 1);
}

/// What a scanner that has not begun returns is the scan of its text.
pub proof fn law_fresh_scan(
    pre: Lexer,
    post: Lexer,
    r: Result<Vec<Token>, (usize, String)>,
    src: Seq<char>,
)
    requires
        pre.is_fresh(src),
        scanned(pre, post, r),
    ensures
        match scan(src) {
            Ok(tokens) => r matches Ok(v) && token_views(v@) == tokens,
            Err((line, kind)) => r matches Err(e) && e.0 == line && e.1@ == message(kind),
        },
{
    let run = run_from(src, 0, 0, 1);
    assert(Seq::<TokenView>::empty() + run.tokens =~= run.tokens);
}

/// Scanning is repeatable: two scanners that have not begun, on the same
/// text, return the same tokens or the same failure.
pub proof fn law_scan_is_repeatable(
    pre1: Lexer,
    post1: Lexer,
    r1: Result<Vec<Token>, (usize, String)>,
    pre2: Lexer,
    post2: Lexer,
    r2: Result<Vec<Token>, (usize, String)>,
    src: Seq<char>,
)
    requires
        pre1.is_fresh(src),
        pre2.is_fresh(src),
        scanned(pre1, post1, r1),
        scanned(pre2, post2, r2),
    ensures
        match (r1, r2) {
            (Ok(a), Ok(b)) => token_views(a@) == token_views(b@),
            (Err(a), Err(b)) => a.0 == b.0 && a.1@ == b.1@,
            _ => false,
        },
{
    law_fresh_scan(pre1, post1, r1, src);
    law_fresh_scan(pre2, post2, r2, src);
}

} // verus!
