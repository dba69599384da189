//! Splits the text of a declaration into words, string literals and single
//! punctuation characters.
use vstd::prelude::*;

verus! {

/// The kinds of token.
#[derive(Clone, Copy, Debug, PartialEq, Eq, Structural)]
pub enum TokenKind {
    /// A maximal run of ASCII letters, digits and underscores.
    Word,
    /// The characters between two double quotes.
    Text,
    /// Any other single character that is not white space.
    Punct,
}

/// A token, as the range `start..end` of the characters that it covers. For a
/// string literal the range leaves out the quotes.
#[derive(Clone, Copy, Debug, PartialEq, Eq, Structural)]
pub struct Token {
    pub kind: TokenKind,
    pub start: usize,
    pub end: usize,
}

pub open spec fn is_word_char(c: char) -> bool {
    ('a' <= c && c <= 'z') || ('A' <= c && c <= 'Z') || ('0' <= c && c <= '9') || c == '_'
}

pub open spec fn is_space(c: char) -> bool {
    c == ' ' || c == '\t' || c == '\n' || c == '\r'
}

/// The end of the run of word characters that starts at `i`.
pub open spec fn word_end(s: Seq<char>, i: int) -> int
    decreases s.len() - i,
{
    if 0 <= i < s.len() && is_word_char(s[i]) {
        word_end(s, i + 1)
    } else {
        i
    }
}

/// The first position from `i` on that holds a double quote or a backslash,
/// or the end of the text.
pub open spec fn text_end(s: Seq<char>, i: int) -> int
    decreases s.len() - i,
{
    if 0 <= i < s.len() && s[i] != '"' && s[i] != '\\' {
        text_end(s, i + 1)
    } else {
        i
    }
}

pub open spec fn token(kind: TokenKind, start: int, end: int) -> Token {
    Token { kind, start: start as usize, end: end as usize }
}

pub open spec fn prepend(ts: Seq<Token>, rest: Option<Seq<Token>>) -> Option<Seq<Token>> {
    match rest {
        Some(r) => Some(ts + r),
        None => None,
    }
}

pub proof fn lemma_word_end_bounds(s: Seq<char>, i: int)
    requires
        0 <= i <= s.len(),
    ensures
        i <= word_end(s, i) <= s.len(),
        i < s.len() && is_word_char(s[i]) ==> i < word_end(s, i),
    decreases s.len() - i,
{
    if i < s.len() && is_word_char(s[i]) {
        lemma_word_end_bounds(s, i + 1);
    }
}

pub proof fn lemma_text_end_bounds(s: Seq<char>, i: int)
    requires
        0 <= i <= s.len(),
    ensures
        i <= text_end(s, i) <= s.len(),
    decreases s.len() - i,
{
    if i < s.len() && s[i] != '"' && s[i] != '\\' {
        lemma_text_end_bounds(s, i + 1);
    }
}

/// The tokens of `s` from position `i` on, or `None` where a string literal
/// holds a backslash or is not closed.
pub open spec fn lex_from(s: Seq<char>, i: int) -> Option<Seq<Token>>
    decreases s.len() - i,
{
    if i < 0 || i >= s.len() {
        Some(Seq::empty())
    } else if is_space(s[i]) {
        lex_from(s, i + 1)
    } else if is_word_char(s[i]) {
        let e = word_end(s, i);
        proof {
            lemma_word_end_bounds(s, i);
        }
        prepend(seq![token(TokenKind::Word, i, e)], lex_from(s, e))
    } else if s[i] == '"' {
        let e = text_end(s, i + 1);
        proof {
            lemma_text_end_bounds(s, i + 1);
        }
        if e < s.len() && s[e] == '"' {
            prepend(seq![token(TokenKind::Text, i + 1, e)], lex_from(s, e + 1))
        } else {
            None
        }
    } else {
        prepend(seq![token(TokenKind::Punct, i, i + 1)], lex_from(s, i + 1))
    }
}

pub open spec fn lex(s: Seq<char>) -> Option<Seq<Token>> {
    lex_from(s, 0)
}

/// Every token lies inside the text, a word is not empty, and a punctuation
/// token covers one character.
pub open spec fn tokens_within(s: Seq<char>, ts: Seq<Token>) -> bool {
    forall|k: int|
        0 <= k < ts.len() ==> {
            let t = #[trigger] ts[k];
            &&& t.start <= t.end <= s.len()
            &&& t.kind == TokenKind::Word ==> t.start < t.end
            &&& t.kind == TokenKind::Punct ==> t.start + 1 == t.end
        }
}

fn is_word_char_exec(c: char) -> (r: bool)
    ensures
        r == is_word_char(c),
{
    ('a' <= c && c <= 'z') || ('A' <= c && c <= 'Z') || ('0' <= c && c <= '9') || c == '_'
}

fn is_space_exec(c: char) -> (r: bool)
    ensures
        r == is_space(c),
{
    c == ' ' || c == '\t' || c == '\n' || c == '\r'
}

/// The characters of `s`, one by one.
pub fn chars_of(s: &str) -> (r: Vec<char>)
    ensures
        r@ == s@,
{
    let n = s.unicode_len();
    let mut r: Vec<char> = Vec::new();
    let mut i: usize = 0;
    while i < n
        invariant
            n == s@.len(),
            i <= n,
            r@ == s@.subrange(0, i as int),
        decreases n - i,
    {
        r.push(s.get_char(i));
        i = i + 1;
        assert(r@ =~= s@.subrange(0, i as int));
    }
    assert(r@ =~= s@);
    r
}

/// Splits `s` into tokens; `None` where a string literal holds a backslash or
/// is not closed.
pub fn tokenize(s: &Vec<char>) -> (r: Option<Vec<Token>>)
    ensures
        match r {
            Some(ts) => lex(s@) == Some(ts@) && tokens_within(s@, ts@),
            None => lex(s@) is None,
        },
{
    let n = s.len();
    let mut out: Vec<Token> = Vec::new();
    let mut i: usize = 0;
    while i < n
        invariant
            n == s@.len(),
            i <= n,
            lex(s@) == prepend(out@, lex_from(s@, i as int)),
            tokens_within(s@, out@),
        decreases n - i,
    {
        let c = s[i];
        let ghost before = out@;
        if is_space_exec(c) {
            i = i + 1;
        } else if is_word_char_exec(c) {
            let mut e: usize = i + 1;
            while e < n && is_word_char_exec(s[e])
                invariant
                    n == s@.len(),
                    i < e <= n,
                    word_end(s@, i as int) == word_end(s@, e as int),
                decreases n - e,
            {
                e = e + 1;
            }
            out.push(Token { kind: TokenKind::Word, start: i, end: e });
            proof {
                assert(out@ == before + seq![token(TokenKind::Word, i as int, e as int)]);
                assert(prepend(before, prepend(seq![token(TokenKind::Word, i as int, e as int)], lex_from(s@, e as int)))
                    == prepend(out@, lex_from(s@, e as int))) by {
                    match lex_from(s@, e as int) {
                        Some(rest) => {
                            assert(before + (seq![token(TokenKind::Word, i as int, e as int)] + rest) =~= out@ + rest);
                        },
                        None => {},
                    }
                }
            }
            i = e;
        } else if c == '"' {
            let mut e: usize = i + 1;
            while e < n && s[e] != '"' && s[e] != '\\'
                invariant
                    n == s@.len(),
                    i < e <= n,
                    text_end(s@, i + 1) == text_end(s@, e as int),
                decreases n - e,
            {
                e = e + 1;
            }
            if e >= n || s[e] != '"' {
                return None;
            }
            out.push(Token { kind: TokenKind::Text, start: i + 1, end: e });
            proof {
                assert(out@ == before + seq![token(TokenKind::Text, i + 1, e as int)]);
                assert(prepend(before, prepend(seq![token(TokenKind::Text, i + 1, e as int)], lex_from(s@, e + 1)))
                    == prepend(out@, lex_from(s@, e + 1))) by {
                    match lex_from(s@, e + 1) {
                        Some(rest) => {
                            assert(before + (seq![token(TokenKind::Text, i + 1, e as int)] + rest) =~= out@ + rest);
                        },
                        None => {},
                    }
                }
            }
            i = e + 1;
        } else {
            out.push(Token { kind: TokenKind::Punct, start: i, end: i + 1 });
            proof {
                assert(out@ == before + seq![token(TokenKind::Punct, i as int, i + 1)]);
                assert(prepend(before, prepend(seq![token(TokenKind::Punct, i as int, i + 1)], lex_from(s@, i + 1)))
                    == prepend(out@, lex_from(s@, i + 1))) by {
                    match lex_from(s@, i + 1) {
                        Some(rest) => {
                            assert(before + (seq![token(TokenKind::Punct, i as int, i + 1)] + rest) =~= out@ + rest);
                        },
                        None => {},
                    }
                }
            }
            i = i + 1;
        }
    }
    assert(out@ + Seq::<Token>::empty() =~= out@);
    Some(out)
}

} // verus!
