use rscad::lexer::{to_chars, tokenize};
use rscad::tokens::{SyntaxError, Token, TokenKind};

fn kinds(text: &str) -> Vec<TokenKind> {
    tokenize(&to_chars(text))
        .unwrap()
        .iter()
        .map(|token| token.kind)
        .collect()
}

#[test]
fn characters_of_a_text() {
    assert_eq!(to_chars(""), Vec::<char>::new());
    assert_eq!(to_chars("a\u{e9}b"), vec!['a', '\u{e9}', 'b']);
}

#[test]
fn an_empty_text_has_only_its_end() {
    assert_eq!(
        tokenize(&to_chars("")),
        Ok(vec![Token {
            kind: TokenKind::End,
            start: 0,
            end: 0
        }])
    );
    assert_eq!(
        tokenize(&to_chars(" \t\r\n")),
        Ok(vec![Token {
            kind: TokenKind::End,
            start: 4,
            end: 4
        }])
    );
}

#[test]
fn tokens_carry_their_span() {
    assert_eq!(
        tokenize(&to_chars("ab = 1.5;")),
        Ok(vec![
            Token {
                kind: TokenKind::Identifier,
                start: 0,
                end: 2
            },
            Token {
                kind: TokenKind::Assign,
                start: 3,
                end: 4
            },
            Token {
                kind: TokenKind::Number,
                start: 5,
                end: 8
            },
            Token {
                kind: TokenKind::Semicolon,
                start: 8,
                end: 9
            },
            Token {
                kind: TokenKind::End,
                start: 9,
                end: 9
            },
        ])
    );
}

#[test]
fn keywords_are_whole_words() {
    assert_eq!(
        kinds("module function if else for let echo assert true false undef"),
        vec![
            TokenKind::Module,
            TokenKind::Function,
            TokenKind::If,
            TokenKind::Else,
            TokenKind::For,
            TokenKind::Let,
            TokenKind::Echo,
            TokenKind::Assert,
            TokenKind::True,
            TokenKind::False,
            TokenKind::Undef,
            TokenKind::End,
        ]
    );
    assert_eq!(
        kinds("modules iff form lets truee _if $for use_ included"),
        vec![
            TokenKind::Identifier,
            TokenKind::Identifier,
            TokenKind::Identifier,
            TokenKind::Identifier,
            TokenKind::Identifier,
            TokenKind::Identifier,
            TokenKind::Identifier,
            TokenKind::Identifier,
            TokenKind::Identifier,
            TokenKind::End,
        ]
    );
}

#[test]
fn operators_take_the_longest_match() {
    assert_eq!(
        kinds("== = != ! <= < >= > && || + - * / % # ? : . , ; ( ) [ ] { }"),
        vec![
            TokenKind::Equal,
            TokenKind::Assign,
            TokenKind::NotEqual,
            TokenKind::Bang,
            TokenKind::LessEqual,
            TokenKind::Less,
            TokenKind::GreaterEqual,
            TokenKind::Greater,
            TokenKind::And,
            TokenKind::Or,
            TokenKind::Plus,
            TokenKind::Minus,
            TokenKind::Star,
            TokenKind::Slash,
            TokenKind::Percent,
            TokenKind::Hash,
            TokenKind::Question,
            TokenKind::Colon,
            TokenKind::Dot,
            TokenKind::Comma,
            TokenKind::Semicolon,
            TokenKind::LeftParen,
            TokenKind::RightParen,
            TokenKind::LeftBracket,
            TokenKind::RightBracket,
            TokenKind::LeftBrace,
            TokenKind::RightBrace,
            TokenKind::End,
        ]
    );
    assert_eq!(
        kinds("a===b"),
        vec![
            TokenKind::Identifier,
            TokenKind::Equal,
            TokenKind::Assign,
            TokenKind::Identifier,
            TokenKind::End,
        ]
    );
}

#[test]
fn numbers_end_where_their_form_ends() {
    let spans = |text: &str| -> Vec<(TokenKind, usize, usize)> {
        tokenize(&to_chars(text))
            .unwrap()
            .iter()
            .map(|token| (token.kind, token.start, token.end))
            .collect()
    };
    assert_eq!(
        spans("12.5e+3x"),
        vec![
            (TokenKind::Number, 0, 7),
            (TokenKind::Identifier, 7, 8),
            (TokenKind::End, 8, 8),
        ]
    );
    assert_eq!(
        spans("1e+"),
        vec![
            (TokenKind::Number, 0, 1),
            (TokenKind::Identifier, 1, 2),
            (TokenKind::Plus, 2, 3),
            (TokenKind::End, 3, 3),
        ]
    );
    assert_eq!(
        spans(".5."),
        vec![
            (TokenKind::Number, 0, 2),
            (TokenKind::Dot, 2, 3),
            (TokenKind::End, 3, 3),
        ]
    );
    assert_eq!(
        spans("a.x"),
        vec![
            (TokenKind::Identifier, 0, 1),
            (TokenKind::Dot, 1, 2),
            (TokenKind::Identifier, 2, 3),
            (TokenKind::End, 3, 3),
        ]
    );
}

#[test]
fn comments_separate_tokens() {
    assert_eq!(
        kinds("a/* b */c // d\ne /**/ f"),
        vec![
            TokenKind::Identifier,
            TokenKind::Identifier,
            TokenKind::Identifier,
            TokenKind::Identifier,
            TokenKind::End,
        ]
    );
    assert_eq!(kinds("// the last line"), vec![TokenKind::End]);
    assert_eq!(
        kinds("a / b"),
        vec![
            TokenKind::Identifier,
            TokenKind::Slash,
            TokenKind::Identifier,
            TokenKind::End
        ]
    );
    assert_eq!(
        tokenize(&to_chars("a /*/ b")),
        Err(SyntaxError::InvalidToken { location: 2 })
    );
}

#[test]
fn a_path_follows_include_and_use() {
    assert_eq!(
        tokenize(&to_chars("use  <a b/*c*/.scad>x")),
        Ok(vec![
            Token {
                kind: TokenKind::Use,
                start: 0,
                end: 3
            },
            Token {
                kind: TokenKind::Path,
                start: 5,
                end: 20
            },
            Token {
                kind: TokenKind::Identifier,
                start: 20,
                end: 21
            },
            Token {
                kind: TokenKind::End,
                start: 21,
                end: 21
            },
        ])
    );
    assert_eq!(
        tokenize(&to_chars("include")),
        Err(SyntaxError::InvalidToken { location: 7 })
    );
}

#[test]
fn text_literals_span_their_quotes() {
    assert_eq!(
        tokenize(&to_chars(r#""a\"b" "#)),
        Ok(vec![
            Token {
                kind: TokenKind::Text,
                start: 0,
                end: 6
            },
            Token {
                kind: TokenKind::End,
                start: 7,
                end: 7
            },
        ])
    );
}
