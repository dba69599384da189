//! Reads the declaration of a record or a tagged union.
//!
//! Grammar, over the tokens of the lexer:
//!
//! ```text
//! declaration := attribute* visibility? ("struct" | "enum") ident "{" members "}"
//! attribute   := "#" "[" token* "]"          (no "]" inside)
//! visibility  := "pub" ( "(" token* ")" )?   (no ")" inside)
//! members     := ( member ( "," member )* ","? )?
//! field       := attribute* visibility? ident ":" type
//! arm         := attribute* ident "(" type ")"
//! type        := ident | ident "<" ident ">"
//! ```
//!
//! A member's name is the literal of its first attribute of the form
//! `#[tool(rename = "...")]`, or else its identifier. A type written as a
//! container of one type stands for the inner type's name.
use vstd::prelude::*;

use crate::declaration::{DeclError, DeclKind, DeclView, Declaration};
use crate::lexer::{chars_of, lex, tokenize, tokens_within, Token, TokenKind};
use crate::model::{fields_view, Field, FieldView};

verus! {

pub open spec fn text_of(s: Seq<char>, t: Token) -> Seq<char> {
    s.subrange(t.start as int, t.end as int)
}

pub open spec fn punct_at(s: Seq<char>, ts: Seq<Token>, p: int, c: char) -> bool {
    0 <= p < ts.len() && ts[p].kind == TokenKind::Punct && s[ts[p].start as int] == c
}

pub open spec fn word_at(s: Seq<char>, ts: Seq<Token>, p: int, w: Seq<char>) -> bool {
    0 <= p < ts.len() && ts[p].kind == TokenKind::Word && text_of(s, ts[p]) == w
}

/// A word that does not start with a digit.
pub open spec fn ident_at(s: Seq<char>, ts: Seq<Token>, p: int) -> bool {
    &&& 0 <= p < ts.len()
    &&& ts[p].kind == TokenKind::Word
    &&& !('0' <= s[ts[p].start as int] && s[ts[p].start as int] <= '9')
}

/// The position of the first `c` at or after `p`; at least `ts.len()` when there is none.
pub open spec fn closing(s: Seq<char>, ts: Seq<Token>, p: int, c: char) -> int
    decreases ts.len() - p,
{
    if p < 0 || p >= ts.len() {
        p
    } else if punct_at(s, ts, p, c) {
        p
    } else {
        closing(s, ts, p + 1, c)
    }
}

/// The tokens from `p` to `q` read `tool ( rename = "literal" )`.
pub open spec fn is_rename(s: Seq<char>, ts: Seq<Token>, p: int, q: int) -> bool {
    &&& q == p + 6
    &&& 0 <= p
    &&& q <= ts.len()
    &&& ts[p].kind == TokenKind::Word
    &&& punct_at(s, ts, p + 1, '(')
    &&& word_at(s, ts, p + 2, "rename"@)
    &&& punct_at(s, ts, p + 3, '=')
    &&& ts[p + 4].kind == TokenKind::Text
    &&& punct_at(s, ts, p + 5, ')')
}

/// The attributes from `p` on: the first rename among them, and the position after them.
pub open spec fn parse_attrs(s: Seq<char>, ts: Seq<Token>, p: int) -> Result<
    (Option<Seq<char>>, int),
    DeclError,
>
    decreases ts.len() - p,
{
    if !punct_at(s, ts, p, '#') {
        Ok((None, p))
    } else if !punct_at(s, ts, p + 1, '[') {
        Err(DeclError::Malformed)
    } else {
        let q = closing(s, ts, p + 2, ']');
        proof {
            lemma_closing_bounds(s, ts, p + 2, ']');
        }
        if q >= ts.len() {
            Err(DeclError::Malformed)
        } else {
            match parse_attrs(s, ts, q + 1) {
                Err(e) => Err(e),
                Ok((later, e)) => Ok(
                    (
                        if is_rename(s, ts, p + 2, q) {
                            Some(text_of(s, ts[p + 6]))
                        } else {
                            later
                        },
                        e,
                    ),
                ),
            }
        }
    }
}

/// The position after an optional visibility at `p`.
pub open spec fn skip_vis(s: Seq<char>, ts: Seq<Token>, p: int) -> Result<int, DeclError> {
    if word_at(s, ts, p, "pub"@) {
        if punct_at(s, ts, p + 1, '(') {
            let q = closing(s, ts, p + 2, ')');
            if q >= ts.len() {
                Err(DeclError::Malformed)
            } else {
                Ok(q + 1)
            }
        } else {
            Ok(p + 1)
        }
    } else {
        Ok(p)
    }
}

/// The declared type at `p`: its name, with one container unwrapped, and the position after it.
pub open spec fn parse_type(s: Seq<char>, ts: Seq<Token>, p: int) -> Result<(Seq<char>, int), DeclError> {
    if !ident_at(s, ts, p) {
        Err(DeclError::UnsupportedType)
    } else if punct_at(s, ts, p + 1, '<') {
        if ident_at(s, ts, p + 2) && punct_at(s, ts, p + 3, '>') {
            Ok((text_of(s, ts[p + 2]), p + 4))
        } else {
            Err(DeclError::UnsupportedType)
        }
    } else {
        Ok((text_of(s, ts[p]), p + 1))
    }
}

pub open spec fn name_of(rename: Option<Seq<char>>, ident: Seq<char>) -> Seq<char> {
    match rename {
        Some(r) => r,
        None => ident,
    }
}

/// One field of a record, or one arm of a tagged union, at `p`.
pub open spec fn parse_member(s: Seq<char>, ts: Seq<Token>, kind: DeclKind, p: int) -> Result<
    (FieldView, int),
    DeclError,
> {
    match parse_attrs(s, ts, p) {
        Err(e) => Err(e),
        Ok((rename, after_attrs)) => match kind {
            DeclKind::Record => match skip_vis(s, ts, after_attrs) {
                Err(e) => Err(e),
                Ok(at_name) => if !ident_at(s, ts, at_name) || !punct_at(s, ts, at_name + 1, ':') {
                    Err(DeclError::Malformed)
                } else {
                    match parse_type(s, ts, at_name + 2) {
                        Err(e) => Err(e),
                        Ok((ty, after_type)) => Ok(
                            (FieldView { name: name_of(rename, text_of(s, ts[at_name])), ty }, after_type),
                        ),
                    }
                },
            },
            DeclKind::Union => if !ident_at(s, ts, after_attrs) || !punct_at(s, ts, after_attrs + 1, '(') {
                Err(DeclError::Malformed)
            } else {
                match parse_type(s, ts, after_attrs + 2) {
                    Err(e) => Err(e),
                    Ok((ty, after_type)) => if punct_at(s, ts, after_type, ')') {
                        Ok((FieldView { name: name_of(rename, text_of(s, ts[after_attrs])), ty }, after_type + 1))
                    } else {
                        Err(DeclError::Malformed)
                    },
                }
            },
        },
    }
}

/// The members from `p` up to the closing brace, and the position of that brace.
pub open spec fn parse_members(s: Seq<char>, ts: Seq<Token>, kind: DeclKind, p: int) -> Result<
    (Seq<FieldView>, int),
    DeclError,
>
    decreases ts.len() - p,
{
    if punct_at(s, ts, p, '}') {
        Ok((Seq::empty(), p))
    } else {
        match parse_member(s, ts, kind, p) {
            Err(e) => Err(e),
            Ok((m, q)) => {
                proof {
                    lemma_member_advances(s, ts, kind, p);
                }
                if punct_at(s, ts, q, ',') {
                    match parse_members(s, ts, kind, q + 1) {
                        Err(e) => Err(e),
                        Ok((ms, r)) => Ok((seq![m] + ms, r)),
                    }
                } else if punct_at(s, ts, q, '}') {
                    Ok((seq![m], q))
                } else {
                    Err(DeclError::Malformed)
                }
            },
        }
    }
}

pub open spec fn kind_at(s: Seq<char>, ts: Seq<Token>, p: int) -> Option<DeclKind> {
    if word_at(s, ts, p, "struct"@) {
        Some(DeclKind::Record)
    } else if word_at(s, ts, p, "enum"@) {
        Some(DeclKind::Union)
    } else {
        None
    }
}

/// The declaration that the tokens `ts` of the text `s` spell.
pub open spec fn parse_tokens(s: Seq<char>, ts: Seq<Token>) -> Result<DeclView, DeclError> {
    match parse_attrs(s, ts, 0) {
        Err(e) => Err(e),
        Ok((_, after_attrs)) => match skip_vis(s, ts, after_attrs) {
            Err(e) => Err(e),
            Ok(at_keyword) => match kind_at(s, ts, at_keyword) {
                None => Err(DeclError::Malformed),
                Some(kind) => if !ident_at(s, ts, at_keyword + 1) || !punct_at(s, ts, at_keyword + 2, '{') {
                    Err(DeclError::Malformed)
                } else {
                    match parse_members(s, ts, kind, at_keyword + 3) {
                        Err(e) => Err(e),
                        Ok((ms, q)) => if q + 1 == ts.len() {
                            Ok(DeclView { kind, name: text_of(s, ts[at_keyword + 1]), members: ms })
                        } else {
                            Err(DeclError::Malformed)
                        },
                    }
                },
            },
        },
    }
}

/// The declaration that the text `s` spells; a text that does not split into
/// tokens is malformed.
pub open spec fn parse_spec(s: Seq<char>) -> Result<DeclView, DeclError> {
    match lex(s) {
        None => Err(DeclError::Malformed),
        Some(ts) => parse_tokens(s, ts),
    }
}

pub proof fn lemma_closing_bounds(s: Seq<char>, ts: Seq<Token>, p: int, c: char)
    ensures
        closing(s, ts, p, c) >= p,
        p <= ts.len() ==> closing(s, ts, p, c) <= ts.len(),
    decreases ts.len() - p,
{
    if 0 <= p < ts.len() && !punct_at(s, ts, p, c) {
        lemma_closing_bounds(s, ts, p + 1, c);
    }
}

pub proof fn lemma_attrs_advance(s: Seq<char>, ts: Seq<Token>, p: int)
    ensures
        parse_attrs(s, ts, p) matches Ok((_, e)) ==> e >= p,
    decreases ts.len() - p,
{
    if punct_at(s, ts, p, '#') && punct_at(s, ts, p + 1, '[') {
        let q = closing(s, ts, p + 2, ']');
        lemma_closing_bounds(s, ts, p + 2, ']');
        if q < ts.len() {
            lemma_attrs_advance(s, ts, q + 1);
        }
    }
}

pub proof fn lemma_member_advances(s: Seq<char>, ts: Seq<Token>, kind: DeclKind, p: int)
    ensures
        parse_member(s, ts, kind, p) matches Ok((_, q)) ==> q > p,
{
    lemma_attrs_advance(s, ts, p);
    if let Ok((_, after_attrs)) = parse_attrs(s, ts, p) {
        if word_at(s, ts, after_attrs, "pub"@) && punct_at(s, ts, after_attrs + 1, '(') {
            lemma_closing_bounds(s, ts, after_attrs + 2, ')');
        }
    }
}

/// A declaration's text, split into characters and tokens.
struct Source<'a> {
    text: &'a str,
    chars: Vec<char>,
    toks: Vec<Token>,
}

impl<'a> Source<'a> {
    spec fn s(&self) -> Seq<char> {
        self.chars@
    }

    spec fn ts(&self) -> Seq<Token> {
        self.toks@
    }

    spec fn wf(&self) -> bool {
        &&& self.chars@ == self.text@
        &&& tokens_within(self.chars@, self.toks@)
        &&& self.toks@.len() <= usize::MAX
    }

    fn punct_is(&self, p: usize, c: char) -> (r: bool)
        requires
            self.wf(),
        ensures
            r == punct_at(self.s(), self.ts(), p as int, c),
    {
        p < self.toks.len() && self.toks[p].kind == TokenKind::Punct && self.chars[self.toks[p].start] == c
    }

    fn text(&self, p: usize) -> (r: String)
        requires
            self.wf(),
            p < self.ts().len(),
        ensures
            r@ == text_of(self.s(), self.ts()[p as int]),
    {
        let t = self.toks[p];
        String::from_str(self.text.substring_char(t.start, t.end))
    }

    fn word_is(&self, p: usize, w: &str) -> (r: bool)
        requires
            self.wf(),
        ensures
            r == word_at(self.s(), self.ts(), p as int, w@),
    {
        if p < self.toks.len() && self.toks[p].kind == TokenKind::Word {
            self.text(p) == String::from_str(w)
        } else {
            false
        }
    }

    fn ident_is(&self, p: usize) -> (r: bool)
        requires
            self.wf(),
        ensures
            r == ident_at(self.s(), self.ts(), p as int),
    {
        if p < self.toks.len() && self.toks[p].kind == TokenKind::Word {
            let c = self.chars[self.toks[p].start];
            !('0' <= c && c <= '9')
        } else {
            false
        }
    }

    fn closing(&self, p: usize, c: char) -> (r: usize)
        requires
            self.wf(),
            p <= self.ts().len(),
        ensures
            r as int == closing(self.s(), self.ts(), p as int, c),
    {
        let mut q = p;
        while q < self.toks.len() && !self.punct_is(q, c)
            invariant
                self.wf(),
                p <= q <= self.ts().len(),
                closing(self.s(), self.ts(), p as int, c) == closing(self.s(), self.ts(), q as int, c),
            decreases self.ts().len() - q,
        {
            q = q + 1;
        }
        q
    }

    fn is_rename(&self, p: usize, q: usize) -> (r: bool)
        requires
            self.wf(),
            p <= q <= self.ts().len(),
        ensures
            r == is_rename(self.s(), self.ts(), p as int, q as int),
    {
        q - p == 6 && self.toks[p].kind == TokenKind::Word && self.punct_is(p + 1, '(') && self.word_is(
            p + 2,
            "rename",
        ) && self.punct_is(p + 3, '=') && self.toks[p + 4].kind == TokenKind::Text && self.punct_is(
            p + 5,
            ')',
        )
    }

    fn parse_attrs(&self, p: usize) -> (r: Result<(Option<String>, usize), DeclError>)
        requires
            self.wf(),
            p <= self.ts().len(),
        ensures
            match r {
                Ok((rename, e)) => e <= self.ts().len() && parse_attrs(self.s(), self.ts(), p as int)
                    == Ok::<(Option<Seq<char>>, int), DeclError>((opt_view(rename), e as int)),
                Err(x) => parse_attrs(self.s(), self.ts(), p as int) == Err::<(Option<Seq<char>>, int), DeclError>(x),
            },
        decreases self.ts().len() - p,
    {
        if !self.punct_is(p, '#') {
            return Ok((None, p));
        }
        if !self.punct_is(p + 1, '[') {
            return Err(DeclError::Malformed);
        }
        let q = self.closing(p + 2, ']');
        proof {
            lemma_closing_bounds(self.s(), self.ts(), p + 2, ']');
        }
        if q >= self.toks.len() {
            return Err(DeclError::Malformed);
        }
        match self.parse_attrs(q + 1) {
            Err(x) => Err(x),
            Ok((later, e)) => {
                if self.is_rename(p + 2, q) {
                    Ok((Some(self.text(p + 6)), e))
                } else {
                    Ok((later, e))
                }
            },
        }
    }

    fn skip_vis(&self, p: usize) -> (r: Result<usize, DeclError>)
        requires
            self.wf(),
            p <= self.ts().len(),
        ensures
            match r {
                Ok(e) => e <= self.ts().len() && skip_vis(self.s(), self.ts(), p as int) == Ok::<int, DeclError>(e as int),
                Err(x) => skip_vis(self.s(), self.ts(), p as int) == Err::<int, DeclError>(x),
            },
    {
        if self.word_is(p, "pub") {
            if self.punct_is(p + 1, '(') {
                let q = self.closing(p + 2, ')');
                if q >= self.toks.len() {
                    Err(DeclError::Malformed)
                } else {
                    Ok(q + 1)
                }
            } else {
                Ok(p + 1)
            }
        } else {
            Ok(p)
        }
    }

    fn parse_type(&self, p: usize) -> (r: Result<(String, usize), DeclError>)
        requires
            self.wf(),
            p <= self.ts().len(),
        ensures
            match r {
                Ok((ty, e)) => e <= self.ts().len() && parse_type(self.s(), self.ts(), p as int)
                    == Ok::<(Seq<char>, int), DeclError>((ty@, e as int)),
                Err(x) => parse_type(self.s(), self.ts(), p as int) == Err::<(Seq<char>, int), DeclError>(x),
            },
    {
        if !self.ident_is(p) {
            Err(DeclError::UnsupportedType)
        } else if self.punct_is(p + 1, '<') {
            if self.ident_is(p + 2) && self.punct_is(p + 3, '>') {
                Ok((self.text(p + 2), p + 4))
            } else {
                Err(DeclError::UnsupportedType)
            }
        } else {
            Ok((self.text(p), p + 1))
        }
    }

    fn parse_member(&self, kind: DeclKind, p: usize) -> (r: Result<(Field, usize), DeclError>)
        requires
            self.wf(),
            p <= self.ts().len(),
        ensures
            match r {
                Ok((m, e)) => e <= self.ts().len() && parse_member(self.s(), self.ts(), kind, p as int)
                    == Ok::<(FieldView, int), DeclError>((m@, e as int)),
                Err(x) => parse_member(self.s(), self.ts(), kind, p as int) == Err::<(FieldView, int), DeclError>(x),
            },
    {
        let (rename, after_attrs) = match self.parse_attrs(p) {
            Err(x) => return Err(x),
            Ok(a) => a,
        };
        match kind {
            DeclKind::Record => {
                let at_name = match self.skip_vis(after_attrs) {
                    Err(x) => return Err(x),
                    Ok(at_name) => at_name,
                };
                if !self.ident_is(at_name) || !self.punct_is(at_name + 1, ':') {
                    return Err(DeclError::Malformed);
                }
                let (ty, after_type) = match self.parse_type(at_name + 2) {
                    Err(x) => return Err(x),
                    Ok(t) => t,
                };
                let name = match rename {
                    Some(n) => n,
                    None => self.text(at_name),
                };
                Ok((Field { name, ty }, after_type))
            },
            DeclKind::Union => {
                if !self.ident_is(after_attrs) || !self.punct_is(after_attrs + 1, '(') {
                    return Err(DeclError::Malformed);
                }
                let (ty, after_type) = match self.parse_type(after_attrs + 2) {
                    Err(x) => return Err(x),
                    Ok(t) => t,
                };
                if !self.punct_is(after_type, ')') {
                    return Err(DeclError::Malformed);
                }
                let name = match rename {
                    Some(n) => n,
                    None => self.text(after_attrs),
                };
                Ok((Field { name, ty }, after_type + 1))
            },
        }
    }

    fn parse_members(&self, kind: DeclKind, p: usize) -> (r: Result<(Vec<Field>, usize), DeclError>)
        requires
            self.wf(),
            p <= self.ts().len(),
        ensures
            match r {
                Ok((ms, e)) => e < self.ts().len() && parse_members(self.s(), self.ts(), kind, p as int)
                    == Ok::<(Seq<FieldView>, int), DeclError>((fields_view(ms@), e as int)),
                Err(x) => parse_members(self.s(), self.ts(), kind, p as int) == Err::<(Seq<FieldView>, int), DeclError>(x),
            },
        decreases self.ts().len() - p,
    {
        if self.punct_is(p, '}') {
            let v: Vec<Field> = Vec::new();
            assert(fields_view(v@) =~= Seq::<FieldView>::empty());
            return Ok((v, p));
        }
        let (m, q) = match self.parse_member(kind, p) {
            Err(x) => return Err(x),
            Ok(a) => a,
        };
        proof {
            lemma_member_advances(self.s(), self.ts(), kind, p as int);
        }
        if self.punct_is(q, ',') {
            match self.parse_members(kind, q + 1) {
                Err(x) => Err(x),
                Ok((ms, e)) => {
                    let ghost mv = m@;
                    let ghost rest = fields_view(ms@);
                    let mut all = ms;
                    all.insert(0, m);
                    assert(fields_view(all@) =~= seq![mv] + rest);
                    Ok((all, e))
                },
            }
        } else if self.punct_is(q, '}') {
            let ghost mv = m@;
            let mut all: Vec<Field> = Vec::new();
            all.push(m);
            assert(fields_view(all@) =~= seq![mv]);
            Ok((all, q))
        } else {
            Err(DeclError::Malformed)
        }
    }

    fn kind_at(&self, p: usize) -> (r: Option<DeclKind>)
        requires
            self.wf(),
        ensures
            r == kind_at(self.s(), self.ts(), p as int),
    {
        if self.word_is(p, "struct") {
            Some(DeclKind::Record)
        } else if self.word_is(p, "enum") {
            Some(DeclKind::Union)
        } else {
            None
        }
    }

    fn parse(&self) -> (r: Result<Declaration, DeclError>)
        requires
            self.wf(),
        ensures
            match r {
                Ok(d) => parse_tokens(self.s(), self.ts()) == Ok::<DeclView, DeclError>(d@),
                Err(x) => parse_tokens(self.s(), self.ts()) == Err::<DeclView, DeclError>(x),
            },
    {
        let after_attrs = match self.parse_attrs(0) {
            Err(x) => return Err(x),
            Ok((_, after_attrs)) => after_attrs,
        };
        let at_keyword = match self.skip_vis(after_attrs) {
            Err(x) => return Err(x),
            Ok(at_keyword) => at_keyword,
        };
        let kind = match self.kind_at(at_keyword) {
            None => return Err(DeclError::Malformed),
            Some(k) => k,
        };
        if !self.ident_is(at_keyword + 1) || !self.punct_is(at_keyword + 2, '{') {
            return Err(DeclError::Malformed);
        }
        let (members, q) = match self.parse_members(kind, at_keyword + 3) {
            Err(x) => return Err(x),
            Ok(a) => a,
        };
        if q + 1 != self.toks.len() {
            return Err(DeclError::Malformed);
        }
        Ok(Declaration { kind, name: self.text(at_keyword + 1), members })
    }
}

pub open spec fn opt_view(o: Option<String>) -> Option<Seq<char>> {
    match o {
        Some(s) => Some(s@),
        None => None,
    }
}

/// Parses the text of a record or tagged-union declaration into its name and
/// its ordered members, renames applied and containers unwrapped.
pub fn parse_declaration(text: &str) -> (r: Result<Declaration, DeclError>)
    ensures
        match r {
            Ok(d) => parse_spec(text@) == Ok::<DeclView, DeclError>(d@),
            Err(x) => parse_spec(text@) == Err::<DeclView, DeclError>(x),
        },
{
    let chars = chars_of(text);
    let toks = match tokenize(&chars) {
        None => return Err(DeclError::Malformed),
        Some(t) => t,
    };
    let n = toks.len();
    assert(toks@.len() <= usize::MAX);
    let src = Source { text, chars, toks };
    src.parse()
}

} // verus!
