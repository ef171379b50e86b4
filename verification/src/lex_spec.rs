//! Mathematical specification of the tokenizer: what token starts at a given
//! position of the source text, and what the whole token stream is.
//!
//! Position bookkeeping: the cursor advances one column per consumed
//! character, and consuming a newline increments the line and resets the
//! column to zero.

use vstd::prelude::*;
use crate::token::{GPos, GToken, LexError};

verus! {

// ---------------------------------------------------------------------------
// Character classes

pub open spec fn is_digit_char(c: char) -> bool {
    48 <= c as int && c as int <= 57
}

pub open spec fn is_upper_char(c: char) -> bool {
    65 <= c as int && c as int <= 90
}

pub open spec fn is_lower_char(c: char) -> bool {
    97 <= c as int && c as int <= 122
}

/// Characters that may continue a type/class reference (`Const` token).
pub open spec fn is_const_cont_char(c: char) -> bool {
    is_lower_char(c) || is_upper_char(c) || is_digit_char(c) || c == '_'
}

/// Characters that may continue a lowercase-leading identifier.
pub open spec fn is_ident_cont_char(c: char) -> bool {
    is_lower_char(c) || is_digit_char(c) || c == '_'
}

/// Characters that may continue an attribute name after `@`.
pub open spec fn is_attr_cont_char(c: char) -> bool {
    is_lower_char(c) || c == '_'
}

pub open spec fn space_pred() -> spec_fn(char) -> bool {
    |c: char| c == ' '
}

pub open spec fn newline_pred() -> spec_fn(char) -> bool {
    |c: char| c == '\n'
}

pub open spec fn comment_pred() -> spec_fn(char) -> bool {
    |c: char| c != '\n'
}

pub open spec fn digit_pred() -> spec_fn(char) -> bool {
    |c: char| is_digit_char(c)
}

pub open spec fn const_cont_pred() -> spec_fn(char) -> bool {
    |c: char| is_const_cont_char(c)
}

pub open spec fn ident_cont_pred() -> spec_fn(char) -> bool {
    |c: char| is_ident_cont_char(c)
}

pub open spec fn attr_cont_pred() -> spec_fn(char) -> bool {
    |c: char| is_attr_cont_char(c)
}

// ---------------------------------------------------------------------------
// Maximal runs

/// Length of the maximal run of characters satisfying `pred` starting at `i`.
pub open spec fn run_len(s: Seq<char>, i: int, pred: spec_fn(char) -> bool) -> nat
    decreases s.len() - i,
{
    if i < 0 || i >= s.len() || !pred(s[i]) {
        0
    } else {
        (1 + run_len(s, i + 1, pred)) as nat
    }
}

pub proof fn lemma_run_len_bound(s: Seq<char>, i: int, pred: spec_fn(char) -> bool)
    requires
        0 <= i <= s.len(),
    ensures
        i + run_len(s, i, pred) <= s.len(),
    decreases s.len() - i,
{
    if i < s.len() && pred(s[i]) {
        lemma_run_len_bound(s, i + 1, pred);
    }
}

// ---------------------------------------------------------------------------
// Cursor movement

/// Cursor position after consuming one character.
pub open spec fn advance_pos(line: nat, col: nat, c: char) -> (nat, nat) {
    if c == '\n' {
        ((line + 1) as nat, 0 as nat)
    } else {
        (line, (col + 1) as nat)
    }
}

/// Cursor position after consuming a whole segment.
pub open spec fn advance_pos_seq(line: nat, col: nat, seg: Seq<char>) -> (nat, nat)
    decreases seg.len(),
{
    if seg.len() == 0 {
        (line, col)
    } else {
        let lc = advance_pos(line, col, seg[0]);
        advance_pos_seq(lc.0, lc.1, seg.drop_first())
    }
}

pub proof fn lemma_advance_pos_seq_snoc(line: nat, col: nat, seg: Seq<char>, c: char)
    ensures
        advance_pos_seq(line, col, seg.push(c)) == ({
            let lc = advance_pos_seq(line, col, seg);
            advance_pos(lc.0, lc.1, c)
        }),
    decreases seg.len(),
{
    reveal_with_fuel(advance_pos_seq, 3);
    if seg.len() == 0 {
        assert(seg.push(c)[0] == c);
        assert(seg.push(c).drop_first() =~= Seq::<char>::empty());
    } else {
        assert(seg.push(c)[0] == seg[0]);
        assert(seg.push(c).drop_first() =~= seg.drop_first().push(c));
        let lc = advance_pos(line, col, seg[0]);
        lemma_advance_pos_seq_snoc(lc.0, lc.1, seg.drop_first(), c);
    }
}

pub proof fn lemma_advance_pos_seq_concat(line: nat, col: nat, a: Seq<char>, b: Seq<char>)
    ensures
        advance_pos_seq(line, col, a + b) == ({
            let lc = advance_pos_seq(line, col, a);
            advance_pos_seq(lc.0, lc.1, b)
        }),
    decreases a.len(),
{
    if a.len() == 0 {
        assert(a + b =~= b);
    } else {
        assert((a + b)[0] == a[0]);
        assert((a + b).drop_first() =~= a.drop_first() + b);
        let lc = advance_pos(line, col, a[0]);
        lemma_advance_pos_seq_concat(lc.0, lc.1, a.drop_first(), b);
    }
}

pub proof fn lemma_advance_pos_seq_bounds(line: nat, col: nat, seg: Seq<char>)
    ensures
        advance_pos_seq(line, col, seg).0 <= line + seg.len(),
        advance_pos_seq(line, col, seg).1 <= col + seg.len(),
    decreases seg.len(),
{
    if seg.len() > 0 {
        let lc = advance_pos(line, col, seg[0]);
        lemma_advance_pos_seq_bounds(lc.0, lc.1, seg.drop_first());
    }
}

// ---------------------------------------------------------------------------
// Numeric literals

pub open spec fn digit_val(c: char) -> nat {
    (c as int - 48) as nat
}

/// Value of a run of decimal digits, most significant first.
pub open spec fn digits_val(s: Seq<char>) -> nat
    decreases s.len(),
{
    if s.len() == 0 {
        0
    } else {
        digits_val(s.drop_last()) * 10 + digit_val(s.last())
    }
}

pub proof fn lemma_digits_val_snoc(s: Seq<char>, c: char)
    ensures
        digits_val(s.push(c)) == digits_val(s) * 10 + digit_val(c),
{
    assert(s.push(c).drop_last() =~= s);
    assert(s.push(c).last() == c);
}

/// The value of a digit run never shrinks as the run extends.
pub proof fn lemma_digits_val_prefix(s: Seq<char>, m: int)
    requires
        0 <= m <= s.len(),
    ensures
        digits_val(s.subrange(0, m)) <= digits_val(s),
    decreases s.len(),
{
    if m < s.len() {
        assert(s.subrange(0, m) =~= s.drop_last().subrange(0, m));
        lemma_digits_val_prefix(s.drop_last(), m);
        assert(digits_val(s.drop_last()) * 10 >= digits_val(s.drop_last())) by (nonlinear_arith);
    } else {
        assert(s.subrange(0, m) =~= s);
    }
}

// ---------------------------------------------------------------------------
// String literals

/// Content and consumed length (including any closing quote) of a string
/// literal body starting at `i`, just after the opening quote. `\n` and `\r`
/// escapes decode to the control characters; any other backslash stays
/// verbatim; an unterminated literal consumes to the end of input.
pub open spec fn scan_str_lit(s: Seq<char>, i: int) -> (Seq<char>, nat)
    decreases s.len() - i,
{
    if i < 0 || i >= s.len() {
        (Seq::empty(), 0 as nat)
    } else if s[i] == '"' {
        (Seq::empty(), 1 as nat)
    } else if s[i] == '\\' && i + 1 < s.len() && s[i + 1] == 'n' {
        let r = scan_str_lit(s, i + 2);
        (seq!['\n'] + r.0, (2 + r.1) as nat)
    } else if s[i] == '\\' && i + 1 < s.len() && s[i + 1] == 'r' {
        let r = scan_str_lit(s, i + 2);
        (seq!['\r'] + r.0, (2 + r.1) as nat)
    } else {
        let r = scan_str_lit(s, i + 1);
        (seq![s[i]] + r.0, (1 + r.1) as nat)
    }
}

pub proof fn lemma_scan_str_lit_bound(s: Seq<char>, i: int)
    requires
        0 <= i,
    ensures
        i + scan_str_lit(s, i).1 <= s.len() || s.len() < i,
    decreases s.len() - i,
{
    if i < s.len() {
        if s[i] == '"' {
        } else if s[i] == '\\' && i + 1 < s.len() && s[i + 1] == 'n' {
            lemma_scan_str_lit_bound(s, i + 2);
        } else if s[i] == '\\' && i + 1 < s.len() && s[i + 1] == 'r' {
            lemma_scan_str_lit_bound(s, i + 2);
        } else {
            lemma_scan_str_lit_bound(s, i + 1);
        }
    }
}

// ---------------------------------------------------------------------------
// Keywords

/// The fixed keyword set checked against lowercase-leading identifiers.
pub open spec fn keyword_token(text: Seq<char>) -> Option<GToken> {
    if text == seq!['b', 'i', 'n', 'a', 'r', 'y'] {
        Some(GToken::Binary)
    } else if text == seq!['c', 'l', 'a', 's', 's'] {
        Some(GToken::Class)
    } else if text == seq!['d', 'e', 'f', '_', 'e'] {
        Some(GToken::DefE)
    } else if text == seq!['d', 'e', 'f'] {
        Some(GToken::Def)
    } else if text == seq!['e', 'n', 'd'] {
        Some(GToken::End)
    } else if text == seq!['i', 'm', 'p', 'l'] {
        Some(GToken::Impl)
    } else if text == seq!['l', 'o', 'o', 'p'] {
        Some(GToken::Loop)
    } else if text == seq!['r', 'e', 't'] {
        Some(GToken::Ret)
    } else if text == seq!['s', 'e', 'l', 'f'] {
        Some(GToken::SelfRef)
    } else if text == seq!['s', 't', 'r', 'u', 'c', 't'] {
        Some(GToken::Struct)
    } else if text == seq!['t', 'r', 'a', 'i', 't'] {
        Some(GToken::Trait)
    } else if text == seq!['u', 'n', 'a', 'r', 'y'] {
        Some(GToken::Unary)
    } else {
        None
    }
}

// ---------------------------------------------------------------------------
// One lexing step

/// A single-character operator token.
pub open spec fn op1_token(c: char) -> GToken {
    GToken::Op(seq![c, '\u{0}', '\u{0}', '\u{0}'])
}

/// The token starting at position `i` of `s`, with the cursor at `(line,
/// col)`: `None` when the input is exhausted, or the token together with the
/// position and cursor after it, or the lexical error there.
pub open spec fn spec_lex(s: Seq<char>, i: int, line: nat, col: nat) -> Option<
    Result<(GToken, int, nat, nat), LexError>,
> {
    if !(0 <= i < s.len()) {
        None
    } else {
        let c = s[i];
        if c == '#' {
            let body = run_len(s, i + 1, comment_pred());
            let j: int = if i + 1 + body < s.len() {
                i + 2 + body
            } else {
                i + 1 + body
            };
            let seg = s.subrange(i, j);
            let lc = advance_pos_seq(line, col, seg);
            Some(
                Ok(
                    (
                        GToken::Comment(
                            GPos { line, start_column: (col + 1) as nat, end_column: lc.1 },
                            seg,
                        ),
                        j,
                        lc.0,
                        lc.1,
                    ),
                ),
            )
        } else if c == ' ' {
            let n = (1 + run_len(s, i + 1, space_pred())) as nat;
            Some(Ok((GToken::Space(n), i + n, line, (col + n) as nat)))
        } else if c == '\n' {
            let n = (1 + run_len(s, i + 1, newline_pred())) as nat;
            Some(Ok((GToken::NewLine(n), i + n, (line + n) as nat, 0 as nat)))
        } else if c == '(' {
            Some(Ok((GToken::LParen, i + 1, line, (col + 1) as nat)))
        } else if c == ')' {
            Some(Ok((GToken::RParen, i + 1, line, (col + 1) as nat)))
        } else if c == '[' {
            Some(Ok((GToken::LSquareBrace, i + 1, line, (col + 1) as nat)))
        } else if c == ']' {
            Some(Ok((GToken::RSquareBrace, i + 1, line, (col + 1) as nat)))
        } else if c == '{' {
            Some(Ok((GToken::LCurlyBrace, i + 1, line, (col + 1) as nat)))
        } else if c == '}' {
            Some(Ok((GToken::RCurlyBrace, i + 1, line, (col + 1) as nat)))
        } else if c == ',' {
            Some(Ok((GToken::Comma, i + 1, line, (col + 1) as nat)))
        } else if c == '.' {
            Some(Ok((GToken::Dot, i + 1, line, (col + 1) as nat)))
        } else if c == '"' {
            let r = scan_str_lit(s, i + 1);
            let j = i + 1 + r.1;
            let seg = s.subrange(i, j);
            let lc = advance_pos_seq(line, col, seg);
            Some(
                Ok(
                    (
                        GToken::StringLiteral(
                            GPos { line, start_column: (col + 1) as nat, end_column: lc.1 },
                            r.0,
                        ),
                        j,
                        lc.0,
                        lc.1,
                    ),
                ),
            )
        } else if is_digit_char(c) {
            let n = (1 + run_len(s, i + 1, digit_pred())) as nat;
            let ds = s.subrange(i, i + n);
            if digits_val(ds) > u64::MAX {
                Some(
                    Err(
                        LexError::NumericLiteralOverflow {
                            line: line as usize,
                            column: (col + 1) as usize,
                        },
                    ),
                )
            } else {
                Some(
                    Ok(
                        (
                            GToken::Number(
                                GPos {
                                    line,
                                    start_column: (col + 1) as nat,
                                    end_column: (col + n) as nat,
                                },
                                digits_val(ds) as u64,
                            ),
                            i + n,
                            line,
                            (col + n) as nat,
                        ),
                    ),
                )
            }
        } else if is_upper_char(c) {
            let n = (1 + run_len(s, i + 1, const_cont_pred())) as nat;
            Some(
                Ok(
                    (
                        GToken::Const(
                            GPos {
                                line,
                                start_column: (col + 1) as nat,
                                end_column: (col + n) as nat,
                            },
                            s.subrange(i, i + n),
                        ),
                        i + n,
                        line,
                        (col + n) as nat,
                    ),
                ),
            )
        } else if is_lower_char(c) || c == '_' {
            let n = (1 + run_len(s, i + 1, ident_cont_pred())) as nat;
            let text = s.subrange(i, i + n);
            match keyword_token(text) {
                Some(t) => Some(Ok((t, i + n, line, (col + n) as nat))),
                None => Some(
                    Ok(
                        (
                            GToken::Ident(
                                GPos {
                                    line,
                                    start_column: (col + 1) as nat,
                                    end_column: (col + n) as nat,
                                },
                                text,
                            ),
                            i + n,
                            line,
                            (col + n) as nat,
                        ),
                    ),
                ),
            }
        } else if c == '=' {
            Some(Ok((GToken::Assign, i + 1, line, (col + 1) as nat)))
        } else if c == '@' {
            let n = (1 + run_len(s, i + 1, attr_cont_pred())) as nat;
            Some(
                Ok(
                    (
                        GToken::Attribute(
                            GPos {
                                line,
                                start_column: (col + 1) as nat,
                                end_column: (col + n) as nat,
                            },
                            s.subrange(i + 1, i + n),
                        ),
                        i + n,
                        line,
                        (col + n) as nat,
                    ),
                ),
            )
        } else if c == '+' {
            Some(Ok((op1_token('+'), i + 1, line, (col + 1) as nat)))
        } else if c == '*' {
            if i + 1 < s.len() && s[i + 1] == '*' {
                Some(
                    Ok(
                        (
                            GToken::Op(seq!['*', '*', '\u{0}', '\u{0}']),
                            i + 2,
                            line,
                            (col + 2) as nat,
                        ),
                    ),
                )
            } else {
                Some(Ok((op1_token('*'), i + 1, line, (col + 1) as nat)))
            }
        } else if c == '/' {
            Some(Ok((op1_token('/'), i + 1, line, (col + 1) as nat)))
        } else if c == '%' {
            Some(Ok((op1_token('%'), i + 1, line, (col + 1) as nat)))
        } else if c == '>' {
            Some(Ok((op1_token('>'), i + 1, line, (col + 1) as nat)))
        } else if c == '-' {
            if i + 1 < s.len() && s[i + 1] == '>' {
                Some(Ok((GToken::Arrow, i + 2, line, (col + 2) as nat)))
            } else {
                Some(Ok((op1_token('-'), i + 1, line, (col + 1) as nat)))
            }
        } else {
            Some(
                Err(
                    LexError::UnsupportedCharacter {
                        line: line as usize,
                        column: (col + 1) as usize,
                        character: c,
                    },
                ),
            )
        }
    }
}

/// Every successful lexing step consumes at least one character and stays
/// inside the input.
pub proof fn lemma_spec_lex_advances(s: Seq<char>, i: int, line: nat, col: nat)
    requires
        0 <= i < s.len(),
        spec_lex(s, i, line, col) is Some,
        spec_lex(s, i, line, col)->Some_0 is Ok,
    ensures
        i < spec_lex(s, i, line, col)->Some_0->Ok_0.1 <= s.len(),
{
    let c = s[i];
    if c == '#' {
        lemma_run_len_bound(s, i + 1, comment_pred());
    } else if c == ' ' {
        lemma_run_len_bound(s, i + 1, space_pred());
    } else if c == '\n' {
        lemma_run_len_bound(s, i + 1, newline_pred());
    } else if c == '"' {
        lemma_scan_str_lit_bound(s, i + 1);
    } else if is_digit_char(c) {
        lemma_run_len_bound(s, i + 1, digit_pred());
    } else if is_upper_char(c) {
        lemma_run_len_bound(s, i + 1, const_cont_pred());
    } else if is_lower_char(c) || c == '_' {
        lemma_run_len_bound(s, i + 1, ident_cont_pred());
    } else if c == '@' {
        lemma_run_len_bound(s, i + 1, attr_cont_pred());
    }
}

// ---------------------------------------------------------------------------
// The whole stream

/// The token stream from position `i` on, or the first lexical error.
pub open spec fn spec_tokenize_from(s: Seq<char>, i: int, line: nat, col: nat) -> Result<
    Seq<GToken>,
    LexError,
>
    decreases s.len() - i,
{
    match spec_lex(s, i, line, col) {
        None => Ok(Seq::empty()),
        Some(Err(e)) => Err(e),
        Some(Ok(step)) => {
            if i < step.1 && step.1 <= s.len() {
                match spec_tokenize_from(s, step.1, step.2, step.3) {
                    Ok(rest) => Ok(seq![step.0] + rest),
                    Err(e) => Err(e),
                }
            } else {
                // never reached: see `lemma_spec_lex_advances`
                Ok(Seq::empty())
            }
        },
    }
}

/// The token stream of a whole source text, read from its start.
pub open spec fn spec_tokenize(s: Seq<char>) -> Result<Seq<GToken>, LexError> {
    spec_tokenize_from(s, 0, 1, 0)
}

/// The mathematical views of a sequence of tokens.
pub open spec fn views_of(tokens: Seq<crate::token::Token>) -> Seq<GToken> {
    tokens.map_values(|t: crate::token::Token| t@)
}

pub proof fn lemma_views_of_push(tokens: Seq<crate::token::Token>, t: crate::token::Token)
    ensures
        views_of(tokens.push(t)) == views_of(tokens).push(t@),
{
    assert(views_of(tokens.push(t)) =~= views_of(tokens).push(t@));
}

} // verus!
