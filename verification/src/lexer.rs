//! Splits a text into tokens.

use crate::tokens;
use crate::tokens::{SyntaxError, Token, TokenKind};
use vstd::prelude::*;

verus! {

/// The characters of a text, one by one.
pub fn to_chars(content: &str) -> (chars: Vec<char>)
    ensures
        chars@ == content@,
{
    let mut chars: Vec<char> = Vec::new();
    for c in it: content.chars()
        invariant
            chars@ == it.seq().take(it.index() as int),
            it.seq() == content@,
    {
        chars.push(c);
        assert(it.seq().take(it.index() + 1) =~= it.seq().take(it.index() as int).push(c));
    }
    assert(content@.take(content@.len() as int) =~= content@);
    chars
}

/// White space.
fn is_space(c: char) -> (r: bool)
    ensures
        r == tokens::is_space(c),
{
    c == ' ' || c == '\t' || c == '\r' || c == '\n'
}

/// A decimal digit.
fn is_digit(c: char) -> (r: bool)
    ensures
        r == tokens::is_digit(c),
{
    '0' <= c && c <= '9'
}

/// What a name starts with.
fn is_identifier_start(c: char) -> (r: bool)
    ensures
        r == tokens::is_identifier_start(c),
{
    ('a' <= c && c <= 'z') || ('A' <= c && c <= 'Z') || c == '_' || c == '$'
}

/// What a name goes on with.
fn is_identifier_part(c: char) -> (r: bool)
    ensures
        r == tokens::is_identifier_part(c),
{
    is_identifier_start(c) || is_digit(c)
}

/// The end of the run of white space that starts at `pos`.
fn spaces_end(chars: &Vec<char>, pos: usize) -> (end: usize)
    requires
        pos <= chars.len(),
    ensures
        end == tokens::spaces_end(chars@, pos as int),
        pos <= end <= chars.len(),
{
    let mut i: usize = pos;
    while i < chars.len() && is_space(chars[i])
        invariant
            pos <= i <= chars.len(),
            tokens::spaces_end(chars@, pos as int) == tokens::spaces_end(chars@, i as int),
        decreases chars.len() - i,
    {
        i += 1;
    }
    i
}

/// The end of the run of digits that starts at `pos`.
fn digits_end(chars: &Vec<char>, pos: usize) -> (end: usize)
    requires
        pos <= chars.len(),
    ensures
        end == tokens::digits_end(chars@, pos as int),
        pos <= end <= chars.len(),
{
    let mut i: usize = pos;
    while i < chars.len() && is_digit(chars[i])
        invariant
            pos <= i <= chars.len(),
            tokens::digits_end(chars@, pos as int) == tokens::digits_end(chars@, i as int),
        decreases chars.len() - i,
    {
        i += 1;
    }
    i
}

/// The end of the run of identifier characters that starts at `pos`.
fn identifier_end(chars: &Vec<char>, pos: usize) -> (end: usize)
    requires
        pos <= chars.len(),
    ensures
        end == tokens::identifier_end(chars@, pos as int),
        pos <= end <= chars.len(),
{
    let mut i: usize = pos;
    while i < chars.len() && is_identifier_part(chars[i])
        invariant
            pos <= i <= chars.len(),
            tokens::identifier_end(chars@, pos as int) == tokens::identifier_end(
                chars@,
                i as int,
            ),
        decreases chars.len() - i,
    {
        i += 1;
    }
    i
}

/// The position of the first line feed at or after `pos`, or the end of the text.
fn line_end(chars: &Vec<char>, pos: usize) -> (end: usize)
    requires
        pos <= chars.len(),
    ensures
        end == tokens::line_end(chars@, pos as int),
        pos <= end <= chars.len(),
{
    let mut i: usize = pos;
    while i < chars.len() && chars[i] != '\n'
        invariant
            pos <= i <= chars.len(),
            tokens::line_end(chars@, pos as int) == tokens::line_end(chars@, i as int),
        decreases chars.len() - i,
    {
        i += 1;
    }
    i
}

/// The position after the first `*/` that starts at or after `pos`.
fn comment_end(chars: &Vec<char>, pos: usize) -> (end: Option<usize>)
    requires
        pos <= chars.len(),
    ensures
        match end {
            Some(e) => tokens::comment_end(chars@, pos as int) == Some(e as int) && pos < e
                <= chars.len(),
            None => tokens::comment_end(chars@, pos as int) is None,
        },
{
    let mut i: usize = pos;
    while chars.len() - i > 1
        invariant
            pos <= i <= chars.len(),
            tokens::comment_end(chars@, pos as int) == tokens::comment_end(chars@, i as int),
        decreases chars.len() - i,
    {
        if chars[i] == '*' && chars[i + 1] == '/' {
            return Some(i + 2);
        }
        i += 1;
    }
    None
}

/// The position after the quote that closes a text literal.
fn text_end(chars: &Vec<char>, pos: usize) -> (end: Option<usize>)
    requires
        pos <= chars.len(),
    ensures
        match end {
            Some(e) => tokens::text_end(chars@, pos as int) == Some(e as int) && pos < e
                <= chars.len(),
            None => tokens::text_end(chars@, pos as int) is None,
        },
{
    let mut i: usize = pos;
    while i < chars.len()
        invariant
            pos <= i <= chars.len(),
            tokens::text_end(chars@, pos as int) == tokens::text_end(chars@, i as int),
        decreases chars.len() - i,
    {
        let c = chars[i];
        if c == '"' {
            return Some(i + 1);
        } else if c == '\\' {
            if chars.len() - i < 2 {
                return None;
            }
            i += 2;
        } else {
            i += 1;
        }
    }
    None
}

/// The position after the first `>` at or after `pos`.
fn path_end(chars: &Vec<char>, pos: usize) -> (end: Option<usize>)
    requires
        pos <= chars.len(),
    ensures
        match end {
            Some(e) => tokens::path_end(chars@, pos as int) == Some(e as int) && pos < e
                <= chars.len(),
            None => tokens::path_end(chars@, pos as int) is None,
        },
{
    let mut i: usize = pos;
    while i < chars.len()
        invariant
            pos <= i <= chars.len(),
            tokens::path_end(chars@, pos as int) == tokens::path_end(chars@, i as int),
        decreases chars.len() - i,
    {
        if chars[i] == '>' {
            return Some(i + 1);
        }
        i += 1;
    }
    None
}

/// The end of the exponent that starts at `pos`, or `pos` where none does.
fn exponent_end(chars: &Vec<char>, pos: usize) -> (end: usize)
    requires
        pos <= chars.len(),
    ensures
        end == tokens::exponent_end(chars@, pos as int),
        pos <= end <= chars.len(),
{
    if pos < chars.len() && (chars[pos] == 'e' || chars[pos] == 'E') {
        let digits: usize = if chars.len() - pos > 1 && (chars[pos + 1] == '+' || chars[pos + 1]
            == '-') {
            pos + 2
        } else {
            pos + 1
        };
        if digits < chars.len() && is_digit(chars[digits]) {
            digits_end(chars, digits)
        } else {
            pos
        }
    } else {
        pos
    }
}

/// The end of the number literal that starts at `pos`.
fn number_end(chars: &Vec<char>, pos: usize) -> (end: usize)
    requires
        pos <= chars.len(),
    ensures
        end == tokens::number_end(chars@, pos as int),
        pos <= end <= chars.len(),
{
    let whole = digits_end(chars, pos);
    let fraction = if whole < chars.len() && chars[whole] == '.' {
        digits_end(chars, whole + 1)
    } else {
        whole
    };
    exponent_end(chars, fraction)
}

/// The position of the first character at or after `pos` that belongs to a token.
fn skip_trivia(chars: &Vec<char>, pos: usize) -> (r: Result<usize, SyntaxError>)
    requires
        pos <= chars.len(),
    ensures
        match r {
            Ok(at) => tokens::skip_trivia(chars@, pos as int) == Ok::<int, SyntaxError>(at as int)
                && pos <= at <= chars.len(),
            Err(e) => tokens::skip_trivia(chars@, pos as int) == Err::<int, SyntaxError>(e),
        },
{
    let mut i: usize = pos;
    while i < chars.len()
        invariant
            pos <= i <= chars.len(),
            tokens::skip_trivia(chars@, pos as int) == tokens::skip_trivia(chars@, i as int),
        decreases chars.len() - i,
    {
        let c = chars[i];
        if is_space(c) {
            i += 1;
        } else if c == '/' && chars.len() - i > 1 && chars[i + 1] == '/' {
            i = line_end(chars, i + 2);
        } else if c == '/' && chars.len() - i > 1 && chars[i + 1] == '*' {
            match comment_end(chars, i + 2) {
                Some(end) => {
                    i = end;
                },
                None => {
                    return Err(SyntaxError::InvalidToken { location: i });
                },
            }
        } else {
            return Ok(i);
        }
    }
    Ok(i)
}

/// Whether the characters `start..end` spell `word`.
fn spells(chars: &Vec<char>, start: usize, end: usize, word: &str) -> (r: bool)
    requires
        start <= end <= chars.len(),
    ensures
        r == (chars@.subrange(start as int, end as int) =~= word@),
{
    let n = word.unicode_len();
    if end - start != n {
        return false;
    }
    let mut i: usize = 0;
    while i < n
        invariant
            i <= n,
            n == word@.len(),
            n == end - start,
            start <= end <= chars.len(),
            forall|j: int| 0 <= j < i ==> chars@[start + j] == word@[j],
        decreases n - i,
    {
        if chars[start + i] != word.get_char(i) {
            assert(chars@.subrange(start as int, end as int)[i as int] != word@[i as int]);
            return false;
        }
        i += 1;
    }
    true
}

/// The kind of the word that spans `start..end`.
fn word_kind(chars: &Vec<char>, start: usize, end: usize) -> (kind: TokenKind)
    requires
        start <= end <= chars.len(),
    ensures
        kind == tokens::word_kind(chars@.subrange(start as int, end as int)),
{
    if spells(chars, start, end, "module") {
        TokenKind::Module
    } else if spells(chars, start, end, "function") {
        TokenKind::Function
    } else if spells(chars, start, end, "if") {
        TokenKind::If
    } else if spells(chars, start, end, "else") {
        TokenKind::Else
    } else if spells(chars, start, end, "for") {
        TokenKind::For
    } else if spells(chars, start, end, "let") {
        TokenKind::Let
    } else if spells(chars, start, end, "echo") {
        TokenKind::Echo
    } else if spells(chars, start, end, "assert") {
        TokenKind::Assert
    } else if spells(chars, start, end, "true") {
        TokenKind::True
    } else if spells(chars, start, end, "false") {
        TokenKind::False
    } else if spells(chars, start, end, "undef") {
        TokenKind::Undef
    } else if spells(chars, start, end, "include") {
        TokenKind::Include
    } else if spells(chars, start, end, "use") {
        TokenKind::Use
    } else {
        TokenKind::Identifier
    }
}

/// The operator or delimiter that a single character spells.
fn single(c: char) -> (kind: Option<TokenKind>)
    ensures
        kind == tokens::single(c),
{
    if c == '(' {
        Some(TokenKind::LeftParen)
    } else if c == ')' {
        Some(TokenKind::RightParen)
    } else if c == '[' {
        Some(TokenKind::LeftBracket)
    } else if c == ']' {
        Some(TokenKind::RightBracket)
    } else if c == '{' {
        Some(TokenKind::LeftBrace)
    } else if c == '}' {
        Some(TokenKind::RightBrace)
    } else if c == ',' {
        Some(TokenKind::Comma)
    } else if c == ';' {
        Some(TokenKind::Semicolon)
    } else if c == ':' {
        Some(TokenKind::Colon)
    } else if c == '?' {
        Some(TokenKind::Question)
    } else if c == '.' {
        Some(TokenKind::Dot)
    } else if c == '=' {
        Some(TokenKind::Assign)
    } else if c == '<' {
        Some(TokenKind::Less)
    } else if c == '>' {
        Some(TokenKind::Greater)
    } else if c == '+' {
        Some(TokenKind::Plus)
    } else if c == '-' {
        Some(TokenKind::Minus)
    } else if c == '*' {
        Some(TokenKind::Star)
    } else if c == '/' {
        Some(TokenKind::Slash)
    } else if c == '%' {
        Some(TokenKind::Percent)
    } else if c == '!' {
        Some(TokenKind::Bang)
    } else if c == '#' {
        Some(TokenKind::Hash)
    } else {
        None
    }
}

/// The operator or delimiter that starts at `pos`, the longest first.
fn punctuation(chars: &Vec<char>, pos: usize) -> (token: Option<Token>)
    requires
        pos < chars.len(),
    ensures
        token == tokens::punctuation(chars@, pos as int),
        token matches Some(t) ==> t.start == pos && pos < t.end <= chars.len(),
{
    let c = chars[pos];
    let two = chars.len() - pos > 1;
    if c == '=' && two && chars[pos + 1] == '=' {
        Some(Token { kind: TokenKind::Equal, start: pos, end: pos + 2 })
    } else if c == '!' && two && chars[pos + 1] == '=' {
        Some(Token { kind: TokenKind::NotEqual, start: pos, end: pos + 2 })
    } else if c == '<' && two && chars[pos + 1] == '=' {
        Some(Token { kind: TokenKind::LessEqual, start: pos, end: pos + 2 })
    } else if c == '>' && two && chars[pos + 1] == '=' {
        Some(Token { kind: TokenKind::GreaterEqual, start: pos, end: pos + 2 })
    } else if c == '&' && two && chars[pos + 1] == '&' {
        Some(Token { kind: TokenKind::And, start: pos, end: pos + 2 })
    } else if c == '|' && two && chars[pos + 1] == '|' {
        Some(Token { kind: TokenKind::Or, start: pos, end: pos + 2 })
    } else {
        match single(c) {
            Some(kind) => Some(Token { kind, start: pos, end: pos + 1 }),
            None => None,
        }
    }
}

/// The token that starts at `pos`.
fn scan_token(chars: &Vec<char>, pos: usize) -> (r: Result<Token, SyntaxError>)
    requires
        pos < chars.len(),
    ensures
        r == tokens::scan_token(chars@, pos as int),
        r matches Ok(t) ==> t.start == pos && pos < t.end <= chars.len(),
{
    let c = chars[pos];
    if is_identifier_start(c) {
        let end = identifier_end(chars, pos + 1);
        Ok(Token { kind: word_kind(chars, pos, end), start: pos, end })
    } else if is_digit(c) || (c == '.' && chars.len() - pos > 1 && is_digit(chars[pos + 1])) {
        let end = number_end(chars, pos);
        proof {
            tokens::lemma_number_is_in_the_text(chars@, pos as int);
        }
        Ok(Token { kind: TokenKind::Number, start: pos, end })
    } else if c == '"' {
        match text_end(chars, pos + 1) {
            Some(end) => Ok(Token { kind: TokenKind::Text, start: pos, end }),
            None => Err(SyntaxError::InvalidToken { location: pos }),
        }
    } else {
        match punctuation(chars, pos) {
            Some(token) => Ok(token),
            None => Err(SyntaxError::InvalidToken { location: pos }),
        }
    }
}

/// The path that follows `include` or `use`.
fn scan_path(chars: &Vec<char>, pos: usize) -> (r: Result<Token, SyntaxError>)
    requires
        pos <= chars.len(),
    ensures
        r == tokens::scan_path(chars@, pos as int),
        r matches Ok(t) ==> pos <= t.start && t.start < t.end <= chars.len(),
{
    let start = spaces_end(chars, pos);
    if start < chars.len() && chars[start] == '<' {
        match path_end(chars, start + 1) {
            Some(end) => Ok(Token { kind: TokenKind::Path, start, end }),
            None => Err(SyntaxError::InvalidToken { location: start }),
        }
    } else {
        Err(SyntaxError::InvalidToken { location: start })
    }
}

/// The tokens of a text, or the first reason why it has none.
pub fn tokenize(chars: &Vec<char>) -> (r: Result<Vec<Token>, SyntaxError>)
    ensures
        match r {
            Ok(list) => tokens::tokens_of(chars@) == Ok::<Seq<Token>, SyntaxError>(list@),
            Err(e) => tokens::tokens_of(chars@) == Err::<Seq<Token>, SyntaxError>(e),
        },
{
    let mut list: Vec<Token> = Vec::new();
    let mut pos: usize = 0;
    loop
        invariant
            pos <= chars.len(),
            tokens::tokens_of(chars@) == tokens::tokens_from(chars@, pos as int, list@),
        decreases chars.len() - pos,
    {
        let at = match skip_trivia(chars, pos) {
            Ok(at) => at,
            Err(e) => {
                return Err(e);
            },
        };
        if at >= chars.len() {
            list.push(Token { kind: TokenKind::End, start: chars.len(), end: chars.len() });
            return Ok(list);
        }
        let token = match scan_token(chars, at) {
            Ok(token) => token,
            Err(e) => {
                return Err(e);
            },
        };
        list.push(token);
        if token.kind == TokenKind::Include || token.kind == TokenKind::Use {
            let path = match scan_path(chars, token.end) {
                Ok(path) => path,
                Err(e) => {
                    return Err(e);
                },
            };
            list.push(path);
            pos = path.end;
        } else {
            pos = token.end;
        }
    }
}

} // verus!
