//! The tokenizer: turns source text into a sequence of position-tagged
//! tokens, verified against the specification in `lex_spec`.

use vstd::prelude::*;
use vstd::string::StrSliceExecFns;
use crate::token::{LexError, Token, TokenPosition};
use crate::lex_spec::{
    advance_pos, advance_pos_seq, attr_cont_pred, comment_pred, const_cont_pred, digit_pred,
    digit_val, digits_val, ident_cont_pred, is_attr_cont_char, is_const_cont_char, is_digit_char,
    is_ident_cont_char, is_lower_char, is_upper_char, keyword_token, lemma_advance_pos_seq_bounds,
    lemma_advance_pos_seq_concat, lemma_advance_pos_seq_snoc, lemma_digits_val_prefix,
    lemma_digits_val_snoc, lemma_run_len_bound, lemma_scan_str_lit_bound, lemma_spec_lex_advances,
    lemma_views_of_push, newline_pred, run_len, scan_str_lit, space_pred, spec_lex, spec_tokenize,
    spec_tokenize_from, views_of,
};
use crate::token::GToken;

verus! {

/// Mathematical state of the tokenizer: the whole input, the index of the
/// next unread character, and the cursor.
pub ghost struct LexerModel {
    pub chars: Seq<char>,
    pub pos: int,
    pub line: nat,
    pub col: nat,
}

/// The tokenizer. It owns the decoded input and a cursor that tracks the
/// 1-based line and the column just after the last consumed character.
pub struct Lexer {
    chars: Vec<char>,
    char_pos: usize,
    line_pos: usize,
    column_pos: usize,
}

impl View for Lexer {
    type V = LexerModel;

    closed spec fn view(&self) -> LexerModel {
        LexerModel {
            chars: self.chars@,
            pos: self.char_pos as int,
            line: self.line_pos as nat,
            col: self.column_pos as nat,
        }
    }
}

impl Lexer {
    /// The cursor is exactly where consuming the prefix before `pos` puts it,
    /// starting from line 1, column 0.
    pub closed spec fn wf(self) -> bool {
        &&& self.char_pos <= self.chars@.len()
        &&& self.chars@.len() < usize::MAX
        &&& ({
            let lc = advance_pos_seq(1, 0, self.chars@.subrange(0, self.char_pos as int));
            self.line_pos as nat == lc.0 && self.column_pos as nat == lc.1
        })
    }

    /// A fresh tokenizer over the whole input, with the cursor at line 1,
    /// column 0. The decoded input must leave one line number of headroom.
    pub fn new(input: &str) -> (l: Lexer)
        requires
            input@.len() < usize::MAX,
        ensures
            l.wf(),
            l@.chars == input@,
            l@.pos == 0,
            l@.line == 1,
            l@.col == 0,
    {
        let n = input.unicode_len();
        let mut chars: Vec<char> = Vec::new();
        let mut k: usize = 0;
        while k < n
            invariant
                k <= n,
                n == input@.len(),
                chars@ == input@.subrange(0, k as int),
            decreases n - k,
        {
            let c = input.get_char(k);
            chars.push(c);
            proof {
                assert(input@.subrange(0, k as int).push(input@[k as int]) =~= input@.subrange(
                    0,
                    k as int + 1,
                ));
            }
            k = k + 1;
        }
        proof {
            assert(input@.subrange(0, n as int) =~= input@);
        }
        Lexer { chars, char_pos: 0, line_pos: 1, column_pos: 0 }
    }

    /// Consume one character, moving the cursor by the per-character rule.
    fn advance(&mut self) -> (c: char)
        requires
            old(self).wf(),
            old(self)@.pos < old(self)@.chars.len(),
        ensures
            final(self).wf(),
            final(self)@.chars == old(self)@.chars,
            final(self)@.pos == old(self)@.pos + 1,
            c == old(self)@.chars[old(self)@.pos],
            advance_pos(old(self)@.line, old(self)@.col, c) == ((final(self)@.line, final(self)@.col)),
    {
        let c = self.chars[self.char_pos];
        proof {
            let prefix = self.chars@.subrange(0, self.char_pos as int);
            lemma_advance_pos_seq_snoc(1, 0, prefix, c);
            lemma_advance_pos_seq_bounds(1, 0, prefix);
            assert(self.chars@.subrange(0, self.char_pos as int + 1) =~= prefix.push(c));
        }
        self.char_pos = self.char_pos + 1;
        if c == '\n' {
            self.line_pos = self.line_pos + 1;
            self.column_pos = 0;
        } else {
            self.column_pos = self.column_pos + 1;
        }
        c
    }

    /// Produce the next token, or `Ok(None)` at the end of the input, or the
    /// first lexical error. One call consumes exactly one token.
    #[verifier::loop_isolation(false)]
    pub fn lex(&mut self) -> (r: Result<Option<Token>, LexError>)
        requires
            old(self).wf(),
        ensures
            final(self).wf(),
            final(self)@.chars == old(self)@.chars,
            ({
                let step = spec_lex(
                    old(self)@.chars,
                    old(self)@.pos,
                    old(self)@.line,
                    old(self)@.col,
                );
                match r {
                    Ok(opt) => match opt {
                        None => step is None && final(self)@ == old(self)@,
                        Some(t) => step matches Some(Ok(st)) && t@ == st.0 && final(self)@.pos
                            == st.1 && final(self)@.line == st.2 && final(self)@.col == st.3,
                    },
                    Err(e) => step == Some(Err::<(GToken, int, nat, nat), LexError>(e)),
                }
            }),
    {
        let ghost s = self@.chars;
        let ghost i0 = self@.pos;
        let ghost l0 = self@.line;
        let ghost c0 = self@.col;
        if self.char_pos >= self.chars.len() {
            return Ok(None);
        }
        let start = self.char_pos;
        let c = self.advance();
        let tok_line = self.line_pos;
        let tok_col = self.column_pos;
        if c == '#' {
            proof {
                lemma_run_len_bound(s, i0 + 1, comment_pred());
            }
            while self.char_pos < self.chars.len() && self.chars[self.char_pos] != '\n'
                invariant
                    self.wf(),
                    self@.chars == s,
                    i0 + 1 <= self@.pos <= s.len(),
                    run_len(s, i0 + 1, comment_pred()) == (self@.pos - (i0 + 1)) + run_len(
                        s,
                        self@.pos,
                        comment_pred(),
                    ),
                decreases s.len() - self@.pos,
            {
                proof {
                    assert(comment_pred()(s[self@.pos]));
                }
                self.advance();
            }
            proof {
                assert(run_len(s, self@.pos, comment_pred()) == 0);
            }
            if self.char_pos < self.chars.len() {
                self.advance();
            }
            let content = chars_to_string(&self.chars, start, self.char_pos);
            let pos_tok = TokenPosition {
                line: tok_line,
                start_column: tok_col,
                end_column: self.column_pos,
            };
            proof {
                old(self).lemma_cursor_over_segment(*self, self@.pos);
            }
            return Ok(Some(Token::Comment(pos_tok, content)));
        } else if c == ' ' {
            proof {
                lemma_run_len_bound(s, i0 + 1, space_pred());
            }
            while self.char_pos < self.chars.len() && self.chars[self.char_pos] == ' '
                invariant
                    self.wf(),
                    self@.chars == s,
                    i0 + 1 <= self@.pos <= s.len(),
                    self@.line == l0,
                    self@.col == c0 + (self@.pos - i0),
                    run_len(s, i0 + 1, space_pred()) == (self@.pos - (i0 + 1)) + run_len(
                        s,
                        self@.pos,
                        space_pred(),
                    ),
                decreases s.len() - self@.pos,
            {
                proof {
                    assert(space_pred()(s[self@.pos]));
                }
                self.advance();
            }
            proof {
                assert(run_len(s, self@.pos, space_pred()) == 0);
            }
            let n = self.char_pos - start;
            return Ok(Some(Token::Space(n)));
        } else if c == '\n' {
            proof {
                lemma_run_len_bound(s, i0 + 1, newline_pred());
            }
            while self.char_pos < self.chars.len() && self.chars[self.char_pos] == '\n'
                invariant
                    self.wf(),
                    self@.chars == s,
                    i0 + 1 <= self@.pos <= s.len(),
                    self@.line == l0 + (self@.pos - i0),
                    self@.col == 0,
                    run_len(s, i0 + 1, newline_pred()) == (self@.pos - (i0 + 1)) + run_len(
                        s,
                        self@.pos,
                        newline_pred(),
                    ),
                decreases s.len() - self@.pos,
            {
                proof {
                    assert(newline_pred()(s[self@.pos]));
                }
                self.advance();
            }
            proof {
                assert(run_len(s, self@.pos, newline_pred()) == 0);
            }
            let n = self.char_pos - start;
            return Ok(Some(Token::NewLine(n)));
        } else if c == '(' {
            return Ok(Some(Token::LParen));
        } else if c == ')' {
            return Ok(Some(Token::RParen));
        } else if c == '[' {
            return Ok(Some(Token::LSquareBrace));
        } else if c == ']' {
            return Ok(Some(Token::RSquareBrace));
        } else if c == '{' {
            return Ok(Some(Token::LCurlyBrace));
        } else if c == '}' {
            return Ok(Some(Token::RCurlyBrace));
        } else if c == ',' {
            return Ok(Some(Token::Comma));
        } else if c == '.' {
            return Ok(Some(Token::Dot));
        } else if c == '"' {
            let mut content = String::new();
            let mut done = false;
            proof {
                lemma_scan_str_lit_bound(s, i0 + 1);
            }
            while !done && self.char_pos < self.chars.len()
                invariant
                    self.wf(),
                    self@.chars == s,
                    i0 + 1 <= self@.pos <= s.len(),
                    !done ==> scan_str_lit(s, i0 + 1).0 == content@ + scan_str_lit(
                        s,
                        self@.pos,
                    ).0,
                    !done ==> scan_str_lit(s, i0 + 1).1 == (self@.pos - (i0 + 1)) + scan_str_lit(
                        s,
                        self@.pos,
                    ).1,
                    done ==> scan_str_lit(s, i0 + 1).0 == content@,
                    done ==> scan_str_lit(s, i0 + 1).1 == self@.pos - (i0 + 1),
                decreases s.len() - self@.pos,
            {
                let ghost content0 = content@;
                let ghost k = self@.pos;
                let ch = self.chars[self.char_pos];
                if ch == '"' {
                    self.advance();
                    done = true;
                    proof {
                        assert(content0 + Seq::<char>::empty() =~= content0);
                    }
                } else if ch == '\\' && self.char_pos + 1 < self.chars.len() && self.chars[self.char_pos
                    + 1] == 'n' {
                    self.advance();
                    self.advance();
                    push_char(&mut content, '\n');
                    proof {
                        assert(content@ =~= content0 + seq!['\n']);
                        assert(content0 + (seq!['\n'] + scan_str_lit(s, k + 2).0) =~= (content0
                            + seq!['\n']) + scan_str_lit(s, k + 2).0);
                    }
                } else if ch == '\\' && self.char_pos + 1 < self.chars.len() && self.chars[self.char_pos
                    + 1] == 'r' {
                    self.advance();
                    self.advance();
                    push_char(&mut content, '\r');
                    proof {
                        assert(content@ =~= content0 + seq!['\r']);
                        assert(content0 + (seq!['\r'] + scan_str_lit(s, k + 2).0) =~= (content0
                            + seq!['\r']) + scan_str_lit(s, k + 2).0);
                    }
                } else {
                    self.advance();
                    push_char(&mut content, ch);
                    proof {
                        assert(content@ =~= content0 + seq![ch]);
                        assert(content0 + (seq![ch] + scan_str_lit(s, k + 1).0) =~= (content0
                            + seq![ch]) + scan_str_lit(s, k + 1).0);
                    }
                }
            }
            let pos_tok = TokenPosition {
                line: tok_line,
                start_column: tok_col,
                end_column: self.column_pos,
            };
            proof {
                if !done {
                    assert(content@ + Seq::<char>::empty() =~= content@);
                }
                old(self).lemma_cursor_over_segment(*self, self@.pos);
            }
            return Ok(Some(Token::StringLiteral(pos_tok, content)));
        } else if is_digit(c) {
            let mut val: u64 = (c as u32 - 48) as u64;
            proof {
                lemma_run_len_bound(s, i0 + 1, digit_pred());
                reveal_with_fuel(digits_val, 3);
                assert(s.subrange(i0, i0 + 1) =~= seq![c]);
                assert(seq![c].drop_last() =~= Seq::<char>::empty());
                assert(c as u32 == c as int);
                assert(val == digit_val(c));
            }
            while self.char_pos < self.chars.len() && is_digit(self.chars[self.char_pos])
                invariant
                    self.wf(),
                    self@.chars == s,
                    i0 + 1 <= self@.pos <= s.len(),
                    self@.line == l0,
                    self@.col == c0 + (self@.pos - i0),
                    run_len(s, i0 + 1, digit_pred()) == (self@.pos - (i0 + 1)) + run_len(
                        s,
                        self@.pos,
                        digit_pred(),
                    ),
                    val == digits_val(s.subrange(i0, self@.pos)),
                decreases s.len() - self@.pos,
            {
                let ghost cur = s.subrange(i0, self@.pos);
                let d = self.chars[self.char_pos];
                let dv: u64 = (d as u32 - 48) as u64;
                proof {
                    assert(digit_pred()(s[self@.pos]));
                    assert(run_len(s, self@.pos, digit_pred()) == 1 + run_len(
                        s,
                        self@.pos + 1,
                        digit_pred(),
                    ));
                    lemma_run_len_bound(s, self@.pos + 1, digit_pred());
                    lemma_digits_val_snoc(cur, d);
                    assert(d == s[self@.pos]);
                    assert(d as u32 == d as int);
                    assert(dv == digit_val(d));
                    assert(cur.push(d) =~= s.subrange(i0, self@.pos + 1));
                }
                if val > (u64::MAX - dv) / 10 {
                    proof {
                        assert(val * 10 + dv > u64::MAX) by (nonlinear_arith)
                            requires
                                val > (u64::MAX - dv) / 10,
                                dv <= 9,
                        ;
                        let n = (1 + run_len(s, i0 + 1, digit_pred())) as nat;
                        let ds = s.subrange(i0, i0 + n);
                        lemma_digits_val_prefix(ds, self@.pos + 1 - i0);
                        assert(ds.subrange(0, self@.pos + 1 - i0) =~= s.subrange(
                            i0,
                            self@.pos + 1,
                        ));
                    }
                    return Err(LexError::NumericLiteralOverflow { line: tok_line, column: tok_col });
                }
                proof {
                    assert(val * 10 + dv <= u64::MAX) by (nonlinear_arith)
                        requires
                            val <= (u64::MAX - dv) / 10,
                            dv <= 9,
                    ;
                }
                val = val * 10 + dv;
                self.advance();
            }
            proof {
                assert(run_len(s, self@.pos, digit_pred()) == 0);
            }
            let pos_tok = TokenPosition {
                line: tok_line,
                start_column: tok_col,
                end_column: self.column_pos,
            };
            return Ok(Some(Token::Number(pos_tok, val)));
        } else if is_upper(c) {
            proof {
                lemma_run_len_bound(s, i0 + 1, const_cont_pred());
            }
            while self.char_pos < self.chars.len() && is_const_cont(self.chars[self.char_pos])
                invariant
                    self.wf(),
                    self@.chars == s,
                    i0 + 1 <= self@.pos <= s.len(),
                    self@.line == l0,
                    self@.col == c0 + (self@.pos - i0),
                    run_len(s, i0 + 1, const_cont_pred()) == (self@.pos - (i0 + 1)) + run_len(
                        s,
                        self@.pos,
                        const_cont_pred(),
                    ),
                decreases s.len() - self@.pos,
            {
                proof {
                    assert(const_cont_pred()(s[self@.pos]));
                }
                self.advance();
            }
            proof {
                assert(run_len(s, self@.pos, const_cont_pred()) == 0);
            }
            let text = chars_to_string(&self.chars, start, self.char_pos);
            let pos_tok = TokenPosition {
                line: tok_line,
                start_column: tok_col,
                end_column: self.column_pos,
            };
            return Ok(Some(Token::Const(pos_tok, text)));
        } else if is_lower(c) || c == '_' {
            proof {
                lemma_run_len_bound(s, i0 + 1, ident_cont_pred());
            }
            while self.char_pos < self.chars.len() && is_ident_cont(self.chars[self.char_pos])
                invariant
                    self.wf(),
                    self@.chars == s,
                    i0 + 1 <= self@.pos <= s.len(),
                    self@.line == l0,
                    self@.col == c0 + (self@.pos - i0),
                    run_len(s, i0 + 1, ident_cont_pred()) == (self@.pos - (i0 + 1)) + run_len(
                        s,
                        self@.pos,
                        ident_cont_pred(),
                    ),
                decreases s.len() - self@.pos,
            {
                proof {
                    assert(ident_cont_pred()(s[self@.pos]));
                }
                self.advance();
            }
            proof {
                assert(run_len(s, self@.pos, ident_cont_pred()) == 0);
            }
            match keyword_lookup(&self.chars, start, self.char_pos) {
                Some(t) => {
                    return Ok(Some(t));
                },
                None => {
                    let text = chars_to_string(&self.chars, start, self.char_pos);
                    let pos_tok = TokenPosition {
                        line: tok_line,
                        start_column: tok_col,
                        end_column: self.column_pos,
                    };
                    return Ok(Some(Token::Ident(pos_tok, text)));
                },
            }
        } else if c == '=' {
            return Ok(Some(Token::Assign));
        } else if c == '@' {
            proof {
                lemma_run_len_bound(s, i0 + 1, attr_cont_pred());
            }
            while self.char_pos < self.chars.len() && is_attr_cont(self.chars[self.char_pos])
                invariant
                    self.wf(),
                    self@.chars == s,
                    i0 + 1 <= self@.pos <= s.len(),
                    self@.line == l0,
                    self@.col == c0 + (self@.pos - i0),
                    run_len(s, i0 + 1, attr_cont_pred()) == (self@.pos - (i0 + 1)) + run_len(
                        s,
                        self@.pos,
                        attr_cont_pred(),
                    ),
                decreases s.len() - self@.pos,
            {
                proof {
                    assert(attr_cont_pred()(s[self@.pos]));
                }
                self.advance();
            }
            proof {
                assert(run_len(s, self@.pos, attr_cont_pred()) == 0);
            }
            let name = chars_to_string(&self.chars, start + 1, self.char_pos);
            let pos_tok = TokenPosition {
                line: tok_line,
                start_column: tok_col,
                end_column: self.column_pos,
            };
            return Ok(Some(Token::Attribute(pos_tok, name)));
        } else if c == '+' {
            let ops: [char; 4] = ['+', '\u{0}', '\u{0}', '\u{0}'];
            proof {
                assert(ops@ =~= seq!['+', '\u{0}', '\u{0}', '\u{0}']);
            }
            return Ok(Some(Token::Op(ops)));
        } else if c == '*' {
            if self.char_pos < self.chars.len() && self.chars[self.char_pos] == '*' {
                self.advance();
                let ops: [char; 4] = ['*', '*', '\u{0}', '\u{0}'];
                proof {
                    assert(ops@ =~= seq!['*', '*', '\u{0}', '\u{0}']);
                }
                return Ok(Some(Token::Op(ops)));
            } else {
                let ops: [char; 4] = ['*', '\u{0}', '\u{0}', '\u{0}'];
                proof {
                    assert(ops@ =~= seq!['*', '\u{0}', '\u{0}', '\u{0}']);
                }
                return Ok(Some(Token::Op(ops)));
            }
        } else if c == '/' {
            let ops: [char; 4] = ['/', '\u{0}', '\u{0}', '\u{0}'];
            proof {
                assert(ops@ =~= seq!['/', '\u{0}', '\u{0}', '\u{0}']);
            }
            return Ok(Some(Token::Op(ops)));
        } else if c == '%' {
            let ops: [char; 4] = ['%', '\u{0}', '\u{0}', '\u{0}'];
            proof {
                assert(ops@ =~= seq!['%', '\u{0}', '\u{0}', '\u{0}']);
            }
            return Ok(Some(Token::Op(ops)));
        } else if c == '>' {
            let ops: [char; 4] = ['>', '\u{0}', '\u{0}', '\u{0}'];
            proof {
                assert(ops@ =~= seq!['>', '\u{0}', '\u{0}', '\u{0}']);
            }
            return Ok(Some(Token::Op(ops)));
        } else if c == '-' {
            if self.char_pos < self.chars.len() && self.chars[self.char_pos] == '>' {
                self.advance();
                return Ok(Some(Token::Arrow));
            } else {
                let ops: [char; 4] = ['-', '\u{0}', '\u{0}', '\u{0}'];
                proof {
                    assert(ops@ =~= seq!['-', '\u{0}', '\u{0}', '\u{0}']);
                }
                return Ok(Some(Token::Op(ops)));
            }
        } else {
            return Err(
                LexError::UnsupportedCharacter { line: tok_line, column: tok_col, character: c },
            );
        }
    }

    /// Tokenize the remaining input: repeated single steps until the input is
    /// exhausted, stopping at the first lexical error.
    #[verifier::loop_isolation(false)]
    pub fn tokenize(&mut self) -> (r: Result<Vec<Token>, LexError>)
        requires
            old(self).wf(),
        ensures
            final(self).wf(),
            ({
                let stream = spec_tokenize_from(
                    old(self)@.chars,
                    old(self)@.pos,
                    old(self)@.line,
                    old(self)@.col,
                );
                match r {
                    Ok(v) => stream == Ok::<Seq<GToken>, LexError>(views_of(v@)),
                    Err(e) => stream == Err::<Seq<GToken>, LexError>(e),
                }
            }),
            old(self)@.pos == 0 && old(self)@.line == 1 && old(self)@.col == 0 ==> ({
                match r {
                    Ok(v) => spec_tokenize(old(self)@.chars) == Ok::<Seq<GToken>, LexError>(
                        views_of(v@),
                    ),
                    Err(e) => spec_tokenize(old(self)@.chars) == Err::<Seq<GToken>, LexError>(e),
                }
            }),
    {
        let ghost s = self@.chars;
        let ghost i0 = self@.pos;
        let ghost l0 = self@.line;
        let ghost c0 = self@.col;
        let mut tokens: Vec<Token> = Vec::new();
        loop
            invariant
                self.wf(),
                self@.chars == s,
                0 <= self@.pos <= s.len(),
                ({
                    let from_here = spec_tokenize_from(s, self@.pos, self@.line, self@.col);
                    let whole = spec_tokenize_from(s, i0, l0, c0);
                    match from_here {
                        Ok(rest) => whole == Ok::<Seq<GToken>, LexError>(views_of(tokens@) + rest),
                        Err(e) => whole == Err::<Seq<GToken>, LexError>(e),
                    }
                }),
            decreases s.len() - self@.pos,
        {
            let ghost pos_before = self@.pos;
            let ghost line_before = self@.line;
            let ghost col_before = self@.col;
            let step = self.lex();
            match step {
                Err(e) => {
                    return Err(e);
                },
                Ok(None) => {
                    proof {
                        assert(views_of(tokens@) + Seq::<GToken>::empty() =~= views_of(tokens@));
                    }
                    return Ok(tokens);
                },
                Ok(Some(t)) => {
                    proof {
                        lemma_spec_lex_advances(s, pos_before, line_before, col_before);
                    }
                    let ghost tokens0 = tokens@;
                    let ghost mapped0 = views_of(tokens@);
                    tokens.push(t);
                    proof {
                        lemma_views_of_push(tokens0, t);
                        assert(views_of(tokens@) == mapped0.push(t@));
                        let rest = spec_tokenize_from(s, self@.pos, self@.line, self@.col);
                        if rest is Ok {
                            assert(mapped0 + (seq![t@] + rest->Ok_0) =~= mapped0.push(t@)
                                + rest->Ok_0);
                        }
                    }
                },
            }
        }
    }

    /// The cursor after consuming up to `j` is the cursor after consuming up
    /// to `i` advanced over the characters between.
    proof fn lemma_cursor_over_segment(self, other: Lexer, j: int)
        requires
            self.wf(),
            other.wf(),
            other.chars@ == self.chars@,
            other.char_pos as int == j,
            self.char_pos as int <= j <= self.chars@.len(),
        ensures
            advance_pos_seq(
                self.line_pos as nat,
                self.column_pos as nat,
                self.chars@.subrange(self.char_pos as int, j),
            ) == ((other.line_pos as nat, other.column_pos as nat)),
    {
        let i = self.char_pos as int;
        let a = self.chars@.subrange(0, i);
        let b = self.chars@.subrange(i, j);
        assert(self.chars@.subrange(0, j) =~= a + b);
        lemma_advance_pos_seq_concat(1, 0, a, b);
    }
}

/// Append one character to a `String`.
///
/// Relies on `String::push`: it appends exactly the given character.
#[verifier::external_body]
fn push_char(s: &mut String, c: char)
    ensures
        final(s)@ == old(s)@.push(c),
{
    s.push(c);
}

/// The text of `chars[start..end]` as a `String`.
fn chars_to_string(chars: &Vec<char>, start: usize, end: usize) -> (s: String)
    requires
        start <= end <= chars@.len(),
    ensures
        s@ == chars@.subrange(start as int, end as int),
{
    let mut s = String::new();
    let mut k: usize = start;
    while k < end
        invariant
            start <= k <= end <= chars@.len(),
            s@ == chars@.subrange(start as int, k as int),
        decreases end - k,
    {
        push_char(&mut s, chars[k]);
        proof {
            assert(chars@.subrange(start as int, k as int).push(chars@[k as int])
                =~= chars@.subrange(start as int, k as int + 1));
        }
        k = k + 1;
    }
    s
}

/// Match a scanned lowercase-leading run against the fixed keyword set.
fn keyword_lookup(chars: &Vec<char>, start: usize, end: usize) -> (t: Option<Token>)
    requires
        start <= end <= chars@.len(),
    ensures
        ({
            let text = chars@.subrange(start as int, end as int);
            match t {
                Some(tok) => keyword_token(text) == Some(tok@),
                None => keyword_token(text) is None,
            }
        }),
{
    let n = end - start;
    proof {
        let text = chars@.subrange(start as int, end as int);
        assert(forall|k: int| 0 <= k < n ==> text[k] == chars@[start + k]);
    }
    if n == 6 && chars[start] == 'b' && chars[start + 1] == 'i' && chars[start + 2] == 'n'
        && chars[start + 3] == 'a' && chars[start + 4] == 'r' && chars[start + 5] == 'y' {
        proof {
            assert(chars@.subrange(start as int, end as int) =~= seq!['b', 'i', 'n', 'a', 'r', 'y']);
        }
        Some(Token::Binary)
    } else if n == 5 && chars[start] == 'c' && chars[start + 1] == 'l' && chars[start + 2] == 'a'
        && chars[start + 3] == 's' && chars[start + 4] == 's' {
        proof {
            assert(chars@.subrange(start as int, end as int) =~= seq!['c', 'l', 'a', 's', 's']);
        }
        Some(Token::Class)
    } else if n == 5 && chars[start] == 'd' && chars[start + 1] == 'e' && chars[start + 2] == 'f'
        && chars[start + 3] == '_' && chars[start + 4] == 'e' {
        proof {
            assert(chars@.subrange(start as int, end as int) =~= seq!['d', 'e', 'f', '_', 'e']);
        }
        Some(Token::DefE)
    } else if n == 3 && chars[start] == 'd' && chars[start + 1] == 'e' && chars[start + 2] == 'f' {
        proof {
            assert(chars@.subrange(start as int, end as int) =~= seq!['d', 'e', 'f']);
        }
        Some(Token::Def)
    } else if n == 3 && chars[start] == 'e' && chars[start + 1] == 'n' && chars[start + 2] == 'd' {
        proof {
            assert(chars@.subrange(start as int, end as int) =~= seq!['e', 'n', 'd']);
        }
        Some(Token::End)
    } else if n == 4 && chars[start] == 'i' && chars[start + 1] == 'm' && chars[start + 2] == 'p'
        && chars[start + 3] == 'l' {
        proof {
            assert(chars@.subrange(start as int, end as int) =~= seq!['i', 'm', 'p', 'l']);
        }
        Some(Token::Impl)
    } else if n == 4 && chars[start] == 'l' && chars[start + 1] == 'o' && chars[start + 2] == 'o'
        && chars[start + 3] == 'p' {
        proof {
            assert(chars@.subrange(start as int, end as int) =~= seq!['l', 'o', 'o', 'p']);
        }
        Some(Token::Loop)
    } else if n == 3 && chars[start] == 'r' && chars[start + 1] == 'e' && chars[start + 2] == 't' {
        proof {
            assert(chars@.subrange(start as int, end as int) =~= seq!['r', 'e', 't']);
        }
        Some(Token::Ret)
    } else if n == 4 && chars[start] == 's' && chars[start + 1] == 'e' && chars[start + 2] == 'l'
        && chars[start + 3] == 'f' {
        proof {
            assert(chars@.subrange(start as int, end as int) =~= seq!['s', 'e', 'l', 'f']);
        }
        Some(Token::SelfRef)
    } else if n == 6 && chars[start] == 's' && chars[start + 1] == 't' && chars[start + 2] == 'r'
        && chars[start + 3] == 'u' && chars[start + 4] == 'c' && chars[start + 5] == 't' {
        proof {
            assert(chars@.subrange(start as int, end as int) =~= seq!['s', 't', 'r', 'u', 'c', 't']);
        }
        Some(Token::Struct)
    } else if n == 5 && chars[start] == 't' && chars[start + 1] == 'r' && chars[start + 2] == 'a'
        && chars[start + 3] == 'i' && chars[start + 4] == 't' {
        proof {
            assert(chars@.subrange(start as int, end as int) =~= seq!['t', 'r', 'a', 'i', 't']);
        }
        Some(Token::Trait)
    } else if n == 5 && chars[start] == 'u' && chars[start + 1] == 'n' && chars[start + 2] == 'a'
        && chars[start + 3] == 'r' && chars[start + 4] == 'y' {
        proof {
            assert(chars@.subrange(start as int, end as int) =~= seq!['u', 'n', 'a', 'r', 'y']);
        }
        Some(Token::Unary)
    } else {
        proof {
            let text = chars@.subrange(start as int, end as int);
            assert(text != seq!['b', 'i', 'n', 'a', 'r', 'y']) by {
                if text == seq!['b', 'i', 'n', 'a', 'r', 'y'] {
                    assert(text[0] == 'b' && text[1] == 'i' && text[2] == 'n' && text[3] == 'a'
                        && text[4] == 'r' && text[5] == 'y' && text.len() == 6);
                }
            }
            assert(text != seq!['c', 'l', 'a', 's', 's']) by {
                if text == seq!['c', 'l', 'a', 's', 's'] {
                    assert(text[0] == 'c' && text[1] == 'l' && text[2] == 'a' && text[3] == 's'
                        && text[4] == 's' && text.len() == 5);
                }
            }
            assert(text != seq!['d', 'e', 'f', '_', 'e']) by {
                if text == seq!['d', 'e', 'f', '_', 'e'] {
                    assert(text[0] == 'd' && text[1] == 'e' && text[2] == 'f' && text[3] == '_'
                        && text[4] == 'e' && text.len() == 5);
                }
            }
            assert(text != seq!['d', 'e', 'f']) by {
                if text == seq!['d', 'e', 'f'] {
                    assert(text[0] == 'd' && text[1] == 'e' && text[2] == 'f' && text.len() == 3);
                }
            }
            assert(text != seq!['e', 'n', 'd']) by {
                if text == seq!['e', 'n', 'd'] {
                    assert(text[0] == 'e' && text[1] == 'n' && text[2] == 'd' && text.len() == 3);
                }
            }
            assert(text != seq!['i', 'm', 'p', 'l']) by {
                if text == seq!['i', 'm', 'p', 'l'] {
                    assert(text[0] == 'i' && text[1] == 'm' && text[2] == 'p' && text[3] == 'l'
                        && text.len() == 4);
                }
            }
            assert(text != seq!['l', 'o', 'o', 'p']) by {
                if text == seq!['l', 'o', 'o', 'p'] {
                    assert(text[0] == 'l' && text[1] == 'o' && text[2] == 'o' && text[3] == 'p'
                        && text.len() == 4);
                }
            }
            assert(text != seq!['r', 'e', 't']) by {
                if text == seq!['r', 'e', 't'] {
                    assert(text[0] == 'r' && text[1] == 'e' && text[2] == 't' && text.len() == 3);
                }
            }
            assert(text != seq!['s', 'e', 'l', 'f']) by {
                if text == seq!['s', 'e', 'l', 'f'] {
                    assert(text[0] == 's' && text[1] == 'e' && text[2] == 'l' && text[3] == 'f'
                        && text.len() == 4);
                }
            }
            assert(text != seq!['s', 't', 'r', 'u', 'c', 't']) by {
                if text == seq!['s', 't', 'r', 'u', 'c', 't'] {
                    assert(text[0] == 's' && text[1] == 't' && text[2] == 'r' && text[3] == 'u'
                        && text[4] == 'c' && text[5] == 't' && text.len() == 6);
                }
            }
            assert(text != seq!['t', 'r', 'a', 'i', 't']) by {
                if text == seq!['t', 'r', 'a', 'i', 't'] {
                    assert(text[0] == 't' && text[1] == 'r' && text[2] == 'a' && text[3] == 'i'
                        && text[4] == 't' && text.len() == 5);
                }
            }
            assert(text != seq!['u', 'n', 'a', 'r', 'y']) by {
                if text == seq!['u', 'n', 'a', 'r', 'y'] {
                    assert(text[0] == 'u' && text[1] == 'n' && text[2] == 'a' && text[3] == 'r'
                        && text[4] == 'y' && text.len() == 5);
                }
            }
        }
        None
    }
}

fn is_digit(c: char) -> (b: bool)
    ensures
        b == is_digit_char(c),
{
    let u = c as u32;
    48 <= u && u <= 57
}

fn is_upper(c: char) -> (b: bool)
    ensures
        b == is_upper_char(c),
{
    let u = c as u32;
    65 <= u && u <= 90
}

fn is_lower(c: char) -> (b: bool)
    ensures
        b == is_lower_char(c),
{
    let u = c as u32;
    97 <= u && u <= 122
}

fn is_const_cont(c: char) -> (b: bool)
    ensures
        b == is_const_cont_char(c),
{
    is_lower(c) || is_upper(c) || is_digit(c) || c == '_'
}

fn is_ident_cont(c: char) -> (b: bool)
    ensures
        b == is_ident_cont_char(c),
{
    is_lower(c) || is_digit(c) || c == '_'
}

fn is_attr_cont(c: char) -> (b: bool)
    ensures
        b == is_attr_cont_char(c),
{
    is_lower(c) || c == '_'
}

} // verus!
