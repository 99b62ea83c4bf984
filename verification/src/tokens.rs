//! The tokens of the language, and which tokens a text is made of.
//!
//! Positions count characters, not bytes. White space and comments separate
//! tokens and are dropped. A block comment ends at the first `*/`: comments
//! do not nest.

use vstd::prelude::*;

verus! {

/// What a token is.
#[derive(Clone, Copy, Debug, PartialEq, Eq, Structural)]
pub enum TokenKind {
    /// A name: a letter, `_` or `$`, then letters, digits, `_` or `$`.
    Identifier,
    /// A number literal.
    Number,
    /// A text literal, quotes included.
    Text,
    /// The file named after `include` or `use`, angle brackets included.
    Path,
    Module,
    Function,
    If,
    Else,
    For,
    Let,
    Echo,
    Assert,
    True,
    False,
    Undef,
    Include,
    Use,
    LeftParen,
    RightParen,
    LeftBracket,
    RightBracket,
    LeftBrace,
    RightBrace,
    Comma,
    Semicolon,
    Colon,
    Question,
    Dot,
    Assign,
    Equal,
    NotEqual,
    Less,
    LessEqual,
    Greater,
    GreaterEqual,
    Plus,
    Minus,
    Star,
    Slash,
    Percent,
    Bang,
    Hash,
    And,
    Or,
    /// The end of the text.
    End,
}

/// A token and the characters `start..end` of the text that it spans.
#[derive(Clone, Copy, Debug, PartialEq, Eq)]
pub struct Token {
    pub kind: TokenKind,
    pub start: usize,
    pub end: usize,
}

/// Why a text is no document.
#[derive(Clone, Copy, Debug, PartialEq, Eq)]
pub enum SyntaxError {
    /// No token starts at `location`, or the one that starts there never
    /// ends.
    InvalidToken { location: usize },
    /// The text ends at `location`, where more was expected.
    UnrecognizedEof { location: usize },
    /// The token that spans `start..end` cannot stand where it does.
    UnrecognizedToken { start: usize, end: usize },
}

/// White space: blank, tab, carriage return, line feed.
pub open spec fn is_space(c: char) -> bool {
    c == ' ' || c == '\t' || c == '\r' || c == '\n'
}

/// A decimal digit.
pub open spec fn is_digit(c: char) -> bool {
    '0' <= c <= '9'
}

/// What a name starts with: a letter, `_` or `$`.
pub open spec fn is_identifier_start(c: char) -> bool {
    ('a' <= c <= 'z') || ('A' <= c <= 'Z') || c == '_' || c == '$'
}

/// What a name goes on with: what it starts with, or a digit.
pub open spec fn is_identifier_part(c: char) -> bool {
    is_identifier_start(c) || is_digit(c)
}

/// The end of the run of white space that starts at `pos`.
pub open spec fn spaces_end(text: Seq<char>, pos: int) -> int
    decreases text.len() - pos,
{
    if 0 <= pos < text.len() && is_space(text[pos]) {
        spaces_end(text, pos + 1)
    } else {
        pos
    }
}

/// The end of the run of digits that starts at `pos`.
pub open spec fn digits_end(text: Seq<char>, pos: int) -> int
    decreases text.len() - pos,
{
    if 0 <= pos < text.len() && is_digit(text[pos]) {
        digits_end(text, pos + 1)
    } else {
        pos
    }
}

/// The end of the run of identifier characters that starts at `pos`.
pub open spec fn identifier_end(text: Seq<char>, pos: int) -> int
    decreases text.len() - pos,
{
    if 0 <= pos < text.len() && is_identifier_part(text[pos]) {
        identifier_end(text, pos + 1)
    } else {
        pos
    }
}

/// The position of the first line feed at or after `pos`, or the end of the
/// text.
pub open spec fn line_end(text: Seq<char>, pos: int) -> int
    decreases text.len() - pos,
{
    if 0 <= pos < text.len() && text[pos] != '\n' {
        line_end(text, pos + 1)
    } else {
        pos
    }
}

/// The position after the first `*/` that starts at or after `pos`.
pub open spec fn comment_end(text: Seq<char>, pos: int) -> Option<int>
    decreases text.len() - pos,
{
    if !(0 <= pos && pos + 1 < text.len()) {
        None
    } else if text[pos] == '*' && text[pos + 1] == '/' {
        Some(pos + 2)
    } else {
        comment_end(text, pos + 1)
    }
}

/// The position after the quote that closes a text literal whose content
/// starts at `pos`. A backslash takes the character after it along, whatever
/// it is.
pub open spec fn text_end(text: Seq<char>, pos: int) -> Option<int>
    decreases text.len() - pos,
{
    if !(0 <= pos < text.len()) {
        None
    } else if text[pos] == '"' {
        Some(pos + 1)
    } else if text[pos] == '\\' {
        if pos + 1 < text.len() {
            text_end(text, pos + 2)
        } else {
            None
        }
    } else {
        text_end(text, pos + 1)
    }
}

/// The position after the first `>` at or after `pos`.
pub open spec fn path_end(text: Seq<char>, pos: int) -> Option<int>
    decreases text.len() - pos,
{
    if !(0 <= pos < text.len()) {
        None
    } else if text[pos] == '>' {
        Some(pos + 1)
    } else {
        path_end(text, pos + 1)
    }
}

/// The end of the exponent that starts at `pos`, or `pos` where none
/// does: `e` or `E`, an optional sign, and at least one digit.
pub open spec fn exponent_end(text: Seq<char>, pos: int) -> int {
    if 0 <= pos < text.len() && (text[pos] == 'e' || text[pos] == 'E') {
        let digits = if pos + 1 < text.len() && (text[pos + 1] == '+' || text[pos + 1] == '-') {
            pos + 2
        } else {
            pos + 1
        };
        if digits < text.len() && is_digit(text[digits]) {
            digits_end(text, digits)
        } else {
            pos
        }
    } else {
        pos
    }
}

/// The end of the number literal that starts at `pos`: digits, an optional
/// `.` with digits, and an optional exponent.
pub open spec fn number_end(text: Seq<char>, pos: int) -> int {
    let whole = digits_end(text, pos);
    let fraction = if 0 <= whole < text.len() && text[whole] == '.' {
        digits_end(text, whole + 1)
    } else {
        whole
    };
    exponent_end(text, fraction)
}

/// The position of the first character at or after `pos` that belongs to
/// a token, or the end of the text. An error where a block comment does not
/// end.
pub open spec fn skip_trivia(text: Seq<char>, pos: int) -> Result<int, SyntaxError>
    decreases text.len() - pos,
{
    if !(0 <= pos < text.len()) {
        Ok(pos)
    } else if is_space(text[pos]) {
        skip_trivia(text, pos + 1)
    } else if text[pos] == '/' && pos + 1 < text.len() && text[pos + 1] == '/' {
        let end = line_end(text, pos + 2);
        if pos < end <= text.len() {
            skip_trivia(text, end)
        } else {
            Ok(pos)
        }
    } else if text[pos] == '/' && pos + 1 < text.len() && text[pos + 1] == '*' {
        match comment_end(text, pos + 2) {
            Some(end) => if pos < end <= text.len() {
                skip_trivia(text, end)
            } else {
                Ok(pos)
            },
            None => Err(SyntaxError::InvalidToken { location: pos as usize }),
        }
    } else {
        Ok(pos)
    }
}

/// The kind of a word: that of the keyword it spells, or an identifier.
pub open spec fn word_kind(word: Seq<char>) -> TokenKind {
    if word =~= "module"@ {
        TokenKind::Module
    } else if word =~= "function"@ {
        TokenKind::Function
    } else if word =~= "if"@ {
        TokenKind::If
    } else if word =~= "else"@ {
        TokenKind::Else
    } else if word =~= "for"@ {
        TokenKind::For
    } else if word =~= "let"@ {
        TokenKind::Let
    } else if word =~= "echo"@ {
        TokenKind::Echo
    } else if word =~= "assert"@ {
        TokenKind::Assert
    } else if word =~= "true"@ {
        TokenKind::True
    } else if word =~= "false"@ {
        TokenKind::False
    } else if word =~= "undef"@ {
        TokenKind::Undef
    } else if word =~= "include"@ {
        TokenKind::Include
    } else if word =~= "use"@ {
        TokenKind::Use
    } else {
        TokenKind::Identifier
    }
}

/// The operator or delimiter that starts at `pos`, the longest first.
pub open spec fn punctuation(text: Seq<char>, pos: int) -> Option<Token>
    recommends
        0 <= pos < text.len(),
{
    let c = text[pos];
    let two = pos + 1 < text.len();
    let start = pos as usize;
    let short = (pos + 1) as usize;
    let long = (pos + 2) as usize;
    if c == '=' && two && text[pos + 1] == '=' {
        Some(Token { kind: TokenKind::Equal, start, end: long })
    } else if c == '!' && two && text[pos + 1] == '=' {
        Some(Token { kind: TokenKind::NotEqual, start, end: long })
    } else if c == '<' && two && text[pos + 1] == '=' {
        Some(Token { kind: TokenKind::LessEqual, start, end: long })
    } else if c == '>' && two && text[pos + 1] == '=' {
        Some(Token { kind: TokenKind::GreaterEqual, start, end: long })
    } else if c == '&' && two && text[pos + 1] == '&' {
        Some(Token { kind: TokenKind::And, start, end: long })
    } else if c == '|' && two && text[pos + 1] == '|' {
        Some(Token { kind: TokenKind::Or, start, end: long })
    } else {
        match single(c) {
            Some(kind) => Some(Token { kind, start, end: short }),
            None => None,
        }
    }
}

/// The operator or delimiter that a single character spells.
pub open spec fn single(c: char) -> Option<TokenKind> {
    if c == '(' {
        Some(TokenKind::LeftParen)
    } else if c == ')' {
        Some(TokenKind::RightParen)
    } else if c == '[' {
        Some(TokenKind::LeftBracket)
    } else if c == ']' {
        Some(TokenKind::RightBracket)
    } else if c == '{' {
        Some(TokenKind::LeftBrace)
    } else if c == '}' {
        Some(TokenKind::RightBrace)
    } else if c == ',' {
        Some(TokenKind::Comma)
    } else if c == ';' {
        Some(TokenKind::Semicolon)
    } else if c == ':' {
        Some(TokenKind::Colon)
    } else if c == '?' {
        Some(TokenKind::Question)
    } else if c == '.' {
        Some(TokenKind::Dot)
    } else if c == '=' {
        Some(TokenKind::Assign)
    } else if c == '<' {
        Some(TokenKind::Less)
    } else if c == '>' {
        Some(TokenKind::Greater)
    } else if c == '+' {
        Some(TokenKind::Plus)
    } else if c == '-' {
        Some(TokenKind::Minus)
    } else if c == '*' {
        Some(TokenKind::Star)
    } else if c == '/' {
        Some(TokenKind::Slash)
    } else if c == '%' {
        Some(TokenKind::Percent)
    } else if c == '!' {
        Some(TokenKind::Bang)
    } else if c == '#' {
        Some(TokenKind::Hash)
    } else {
        None
    }
}

/// The token that starts at `pos`, where a character that is neither white
/// space nor the start of a comment stands.
pub open spec fn scan_token(text: Seq<char>, pos: int) -> Result<Token, SyntaxError>
    recommends
        0 <= pos < text.len(),
{
    let c = text[pos];
    let start = pos as usize;
    if is_identifier_start(c) {
        let end = identifier_end(text, pos + 1);
        Ok(Token { kind: word_kind(text.subrange(pos, end)), start, end: end as usize })
    } else if is_digit(c) || (c == '.' && pos + 1 < text.len() && is_digit(text[pos + 1])) {
        Ok(Token { kind: TokenKind::Number, start, end: number_end(text, pos) as usize })
    } else if c == '"' {
        match text_end(text, pos + 1) {
            Some(end) => Ok(Token { kind: TokenKind::Text, start, end: end as usize }),
            None => Err(SyntaxError::InvalidToken { location: start }),
        }
    } else {
        match punctuation(text, pos) {
            Some(token) => Ok(token),
            None => Err(SyntaxError::InvalidToken { location: start }),
        }
    }
}

/// The path that follows `include` or `use`: white space, then everything
/// from `<` to the next `>`.
pub open spec fn scan_path(text: Seq<char>, pos: int) -> Result<Token, SyntaxError> {
    let start = spaces_end(text, pos);
    if 0 <= start < text.len() && text[start] == '<' {
        match path_end(text, start + 1) {
            Some(end) => Ok(Token { kind: TokenKind::Path, start: start as usize, end: end as usize }),
            None => Err(SyntaxError::InvalidToken { location: start as usize }),
        }
    } else {
        Err(SyntaxError::InvalidToken { location: start as usize })
    }
}

/// The tokens of `text` from `pos` on, after those of `tokens`. The list
/// ends with a token of kind [`TokenKind::End`] at the end of the text.
pub open spec fn tokens_from(text: Seq<char>, pos: int, tokens: Seq<Token>) -> Result<
    Seq<Token>,
    SyntaxError,
>
    decreases text.len() - pos,
{
    match skip_trivia(text, pos) {
        Err(e) => Err(e),
        Ok(at) => if !(pos <= at < text.len()) {
            Ok(
                tokens.push(
                    Token {
                        kind: TokenKind::End,
                        start: text.len() as usize,
                        end: text.len() as usize,
                    },
                ),
            )
        } else {
            match scan_token(text, at) {
                Err(e) => Err(e),
                Ok(token) => if token.kind == TokenKind::Include || token.kind == TokenKind::Use {
                    match scan_path(text, token.end as int) {
                        Err(e) => Err(e),
                        Ok(path) => if pos < path.end <= text.len() {
                            tokens_from(text, path.end as int, tokens.push(token).push(path))
                        } else {
                            Err(SyntaxError::InvalidToken { location: token.end })
                        },
                    }
                } else if pos < token.end <= text.len() {
                    tokens_from(text, token.end as int, tokens.push(token))
                } else {
                    Err(SyntaxError::InvalidToken { location: token.start })
                },
            }
        },
    }
}

/// The tokens of a text.
pub open spec fn tokens_of(text: Seq<char>) -> Result<Seq<Token>, SyntaxError> {
    tokens_from(text, 0, Seq::empty())
}

/// The tokens stand in the text one after the other: each spans at least
/// one character, none reaches past `limit`, none overlaps the next, and none
/// is the end of the text.
pub open spec fn laid_out(tokens: Seq<Token>, limit: int) -> bool {
    &&& forall|i: int|
        0 <= i < tokens.len() ==> (#[trigger] tokens[i]).start < tokens[i].end <= limit
            && tokens[i].kind != TokenKind::End
    &&& forall|i: int, j: int|
        0 <= i < j < tokens.len() ==> (#[trigger] tokens[i]).end <= (#[trigger] tokens[j]).start
}

/// A run ends between its start and the end of the text.
pub proof fn lemma_runs_end_in_the_text(text: Seq<char>, pos: int)
    requires
        0 <= pos <= text.len(),
    ensures
        pos <= spaces_end(text, pos) <= text.len(),
        pos <= digits_end(text, pos) <= text.len(),
        pos <= identifier_end(text, pos) <= text.len(),
        pos <= line_end(text, pos) <= text.len(),
    decreases text.len() - pos,
{
    if pos < text.len() {
        lemma_runs_end_in_the_text(text, pos + 1);
    }
}

/// What closes a comment, a text literal or a path stands after their
/// start, in the text.
pub proof fn lemma_closings_are_in_the_text(text: Seq<char>, pos: int)
    requires
        0 <= pos <= text.len(),
    ensures
        comment_end(text, pos) matches Some(end) ==> pos + 1 < end <= text.len(),
        text_end(text, pos) matches Some(end) ==> pos < end <= text.len(),
        path_end(text, pos) matches Some(end) ==> pos < end <= text.len(),
    decreases text.len() - pos,
{
    if pos < text.len() {
        lemma_closings_are_in_the_text(text, pos + 1);
        if pos + 1 < text.len() {
            lemma_closings_are_in_the_text(text, pos + 2);
        }
    }
}

/// A number literal holds at least the character it starts with, and ends
/// in the text.
pub proof fn lemma_number_is_in_the_text(text: Seq<char>, pos: int)
    requires
        0 <= pos < text.len(),
        is_digit(text[pos]) || (text[pos] == '.' && pos + 1 < text.len() && is_digit(
            text[pos + 1],
        )),
    ensures
        pos < number_end(text, pos) <= text.len(),
{
    lemma_runs_end_in_the_text(text, pos);
    let whole = digits_end(text, pos);
    if whole < text.len() {
        lemma_runs_end_in_the_text(text, whole + 1);
    }
    let fraction = if 0 <= whole < text.len() && text[whole] == '.' {
        digits_end(text, whole + 1)
    } else {
        whole
    };
    if fraction < text.len() {
        let digits = if fraction + 1 < text.len() && (text[fraction + 1] == '+' || text[fraction
            + 1] == '-') {
            fraction + 2
        } else {
            fraction + 1
        };
        if digits < text.len() {
            lemma_runs_end_in_the_text(text, digits);
        }
    }
}

/// White space and comments end in the text, and a comment that does not
/// end is reported where it starts.
pub proof fn lemma_trivia_is_in_the_text(text: Seq<char>, pos: int)
    requires
        0 <= pos <= text.len() <= usize::MAX,
    ensures
        match skip_trivia(text, pos) {
            Ok(at) => pos <= at <= text.len(),
            Err(e) => e matches SyntaxError::InvalidToken { location } && pos <= location
                < text.len(),
        },
    decreases text.len() - pos,
{
    if pos < text.len() {
        if is_space(text[pos]) {
            lemma_trivia_is_in_the_text(text, pos + 1);
        } else if text[pos] == '/' && pos + 1 < text.len() && text[pos + 1] == '/' {
            lemma_runs_end_in_the_text(text, pos + 2);
            lemma_trivia_is_in_the_text(text, line_end(text, pos + 2));
        } else if text[pos] == '/' && pos + 1 < text.len() && text[pos + 1] == '*' {
            lemma_closings_are_in_the_text(text, pos + 2);
            match comment_end(text, pos + 2) {
                Some(end) => lemma_trivia_is_in_the_text(text, end),
                None => {},
            }
        }
    }
}

/// A token spans at least the character it starts with, ends in the text,
/// and is not the end of the text; where none starts, the error says where.
pub proof fn lemma_token_is_in_the_text(text: Seq<char>, pos: int)
    requires
        0 <= pos < text.len() <= usize::MAX,
    ensures
        match scan_token(text, pos) {
            Ok(token) => token.start == pos && pos < token.end <= text.len() && token.kind
                != TokenKind::End,
            Err(e) => e == (SyntaxError::InvalidToken { location: pos as usize }),
        },
{
    let c = text[pos];
    if is_identifier_start(c) {
        lemma_runs_end_in_the_text(text, pos + 1);
    } else if is_digit(c) || (c == '.' && pos + 1 < text.len() && is_digit(text[pos + 1])) {
        lemma_number_is_in_the_text(text, pos);
    } else if c == '"' {
        lemma_closings_are_in_the_text(text, pos + 1);
    }
}

/// A path starts at or after the position given, spans at least its
/// opening bracket, and ends in the text.
pub proof fn lemma_path_is_in_the_text(text: Seq<char>, pos: int)
    requires
        0 <= pos <= text.len() <= usize::MAX,
    ensures
        match scan_path(text, pos) {
            Ok(token) => pos <= token.start < token.end <= text.len() && token.kind
                == TokenKind::Path,
            Err(e) => e matches SyntaxError::InvalidToken { location } && pos <= location
                <= text.len(),
        },
{
    lemma_runs_end_in_the_text(text, pos);
    let start = spaces_end(text, pos);
    if start < text.len() {
        lemma_closings_are_in_the_text(text, start + 1);
    }
}

/// The tokens read from `pos` on stand in order after those read before.
pub proof fn lemma_tokens_from_lie_in_order(text: Seq<char>, pos: int, tokens: Seq<Token>)
    requires
        0 <= pos <= text.len() <= usize::MAX,
        laid_out(tokens, pos),
    ensures
        match tokens_from(text, pos, tokens) {
            Ok(all) => {
                &&& all.len() > 0
                &&& all.last() == (Token {
                    kind: TokenKind::End,
                    start: text.len() as usize,
                    end: text.len() as usize,
                })
                &&& laid_out(all.drop_last(), text.len() as int)
            },
            Err(e) => e matches SyntaxError::InvalidToken { location } && location <= text.len(),
        },
    decreases text.len() - pos,
{
    lemma_trivia_is_in_the_text(text, pos);
    match skip_trivia(text, pos) {
        Err(_) => {},
        Ok(at) => {
            if !(pos <= at < text.len()) {
                let end = Token {
                    kind: TokenKind::End,
                    start: text.len() as usize,
                    end: text.len() as usize,
                };
                assert(tokens.push(end).drop_last() =~= tokens);
            } else {
                lemma_token_is_in_the_text(text, at);
                match scan_token(text, at) {
                    Err(_) => {},
                    Ok(token) => {
                        if token.kind == TokenKind::Include || token.kind == TokenKind::Use {
                            lemma_path_is_in_the_text(text, token.end as int);
                            match scan_path(text, token.end as int) {
                                Err(_) => {},
                                Ok(path) => {
                                    lemma_tokens_from_lie_in_order(
                                        text,
                                        path.end as int,
                                        tokens.push(token).push(path),
                                    );
                                },
                            }
                        } else {
                            lemma_tokens_from_lie_in_order(
                                text,
                                token.end as int,
                                tokens.push(token),
                            );
                        }
                    },
                }
            }
        },
    }
}

/// The tokens of a text stand in the text in order, each spanning at least
/// one character, and the last of them marks the end of the text. A text
/// that has no tokens holds a character that starts none, or a comment, a
/// text literal or a path that does not end; the error points into the text.
pub proof fn law_tokens_lie_in_order(text: Seq<char>)
    requires
        text.len() <= usize::MAX,
    ensures
        match tokens_of(text) {
            Ok(tokens) => {
                &&& tokens.len() > 0
                &&& tokens.last() == (Token {
                    kind: TokenKind::End,
                    start: text.len() as usize,
                    end: text.len() as usize,
                })
                &&& laid_out(tokens.drop_last(), text.len() as int)
            },
            Err(e) => e matches SyntaxError::InvalidToken { location } && location <= text.len(),
        },
{
    lemma_tokens_from_lie_in_order(text, 0, Seq::empty());
}

} // verus!
