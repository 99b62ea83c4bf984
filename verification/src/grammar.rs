//! The grammar of the language: which tree a list of tokens spells.
//!
//! Every rule reads the tokens from a position on and gives the tree it
//! read with the position after it, or the reason why the tokens do not
//! follow the rule. A rule never looks back, and looks ahead by two tokens at
//! most.
//!
//! ```text
//! document    := statement* End
//! statement   := ';' | '{' statement* '}'
//!              | 'module' name parameters statement
//!              | 'function' name parameters '=' expression ';'
//!              | 'include' path | 'use' path
//!              | 'if' '(' expression ')' body ('else' statement)?
//!              | name '=' expression ';'
//!              | modifier? action
//! action      := 'for' arguments body | name arguments body
//! body        := ';' | '{' statement* '}' | statement
//! expression  := let+ expression | 'echo' arguments expression
//!              | 'assert' arguments expression | ternary
//! ternary     := binary ('?' expression ':' expression)?
//! binary      := operands of '||', of '&&', of '==' '!=', of '<' '<=' '>' '>=',
//!                of '+' '-', of '*' '/' '%', each level binding tighter than
//!                the one before and grouping to the left
//! unary       := ('-' | '!') unary | primary ('[' expression ']' | '.' name)*
//! primary     := 'true' | 'false' | 'undef' | number | text | name
//!              | name arguments | '(' expression ')' | '[' bracket
//! bracket     := ']' | let* 'for' arguments expression ']'
//!              | expression ':' expression (':' expression)? ']'
//!              | expression (',' expression)* ','? ']'
//! arguments   := '(' ((name '=')? expression (',' | &')'))* ')'
//! parameters  := '(' (name ('=' expression)? (',' | &')'))* ')'
//! let         := 'let' arguments
//! ```

use crate::ast::{
    ExprView, FunctionCallView, LetView, Modifier, ModuleCallView, Opcode,
    ParameterDefinitionView, ParameterValueView, StatementView,
};
use crate::tokens::{tokens_of, SyntaxError, Token, TokenKind};
use vstd::prelude::*;

verus! {

/// What a rule gives: the tree read and the position after it.
pub type Step<T> = Result<(T, int), SyntaxError>;

/// The token at `pos`; past the end of the list, the end of the text.
pub open spec fn token_at(tokens: Seq<Token>, pos: int) -> Token {
    if 0 <= pos < tokens.len() {
        tokens[pos]
    } else {
        Token { kind: TokenKind::End, start: 0, end: 0 }
    }
}

/// The kind of the token at `pos`.
pub open spec fn kind_at(tokens: Seq<Token>, pos: int) -> TokenKind {
    token_at(tokens, pos).kind
}

/// The error for a token that cannot stand at `pos`.
pub open spec fn unexpected(tokens: Seq<Token>, pos: int) -> SyntaxError {
    let token = token_at(tokens, pos);
    if token.kind == TokenKind::End {
        SyntaxError::UnrecognizedEof { location: token.start }
    } else {
        SyntaxError::UnrecognizedToken { start: token.start, end: token.end }
    }
}

/// The characters `start..end` of the text; nothing where that is no range
/// of the text.
pub open spec fn lexeme(text: Seq<char>, start: int, end: int) -> Seq<char> {
    if 0 <= start <= end <= text.len() {
        text.subrange(start, end)
    } else {
        Seq::empty()
    }
}

/// The characters of the token at `pos`.
pub open spec fn word(tokens: Seq<Token>, text: Seq<char>, pos: int) -> Seq<char> {
    let token = token_at(tokens, pos);
    lexeme(text, token.start as int, token.end as int)
}

/// The characters of the token at `pos` without the first and the last:
/// what stands between the quotes of a text, or the brackets of a path.
pub open spec fn quoted(tokens: Seq<Token>, text: Seq<char>, pos: int) -> Seq<char> {
    let token = token_at(tokens, pos);
    lexeme(text, token.start + 1, token.end - 1)
}

/// A step that has moved forward and stayed within the tokens; a step that
/// has not is an error.
pub open spec fn forward<T>(step: Step<T>, tokens: Seq<Token>, pos: int) -> Step<T> {
    match step {
        Ok((value, next)) => if pos < next <= tokens.len() {
            step
        } else {
            Err(unexpected(tokens, pos))
        },
        Err(e) => Err(e),
    }
}

/// The position after the token at `pos`, which must be of the given kind.
pub open spec fn expect(tokens: Seq<Token>, pos: int, kind: TokenKind) -> Result<int, SyntaxError> {
    if kind_at(tokens, pos) == kind && kind != TokenKind::End {
        Ok(pos + 1)
    } else {
        Err(unexpected(tokens, pos))
    }
}

/// A binary operator.
#[derive(Clone, Copy, Debug, PartialEq, Eq)]
pub enum Binary {
    Or,
    And,
    Op(Opcode),
}

/// The binary operator that a token spells at a level of precedence, from
/// 0, the loosest, to 5, the tightest.
pub open spec fn operator_at(kind: TokenKind, level: nat) -> Option<Binary> {
    if level == 0 && kind == TokenKind::Or {
        Some(Binary::Or)
    } else if level == 1 && kind == TokenKind::And {
        Some(Binary::And)
    } else if level == 2 && kind == TokenKind::Equal {
        Some(Binary::Op(Opcode::Equal))
    } else if level == 2 && kind == TokenKind::NotEqual {
        Some(Binary::Op(Opcode::NotEqual))
    } else if level == 3 && kind == TokenKind::Less {
        Some(Binary::Op(Opcode::Lt))
    } else if level == 3 && kind == TokenKind::LessEqual {
        Some(Binary::Op(Opcode::Lte))
    } else if level == 3 && kind == TokenKind::Greater {
        Some(Binary::Op(Opcode::Gt))
    } else if level == 3 && kind == TokenKind::GreaterEqual {
        Some(Binary::Op(Opcode::Gte))
    } else if level == 4 && kind == TokenKind::Plus {
        Some(Binary::Op(Opcode::Add))
    } else if level == 4 && kind == TokenKind::Minus {
        Some(Binary::Op(Opcode::Sub))
    } else if level == 5 && kind == TokenKind::Star {
        Some(Binary::Op(Opcode::Mul))
    } else if level == 5 && kind == TokenKind::Slash {
        Some(Binary::Op(Opcode::Div))
    } else if level == 5 && kind == TokenKind::Percent {
        Some(Binary::Op(Opcode::Rem))
    } else {
        None
    }
}

/// The application of a binary operator.
pub open spec fn combine(op: Binary, lhs: ExprView, rhs: ExprView) -> ExprView {
    match op {
        Binary::Or => ExprView::Or(Box::new(lhs), Box::new(rhs)),
        Binary::And => ExprView::And(Box::new(lhs), Box::new(rhs)),
        Binary::Op(code) => ExprView::Op(Box::new(lhs), code, Box::new(rhs)),
    }
}

/// The modifier that a token spells.
pub open spec fn modifier_of(kind: TokenKind) -> Option<Modifier> {
    if kind == TokenKind::Percent {
        Some(Modifier::Transparent)
    } else if kind == TokenKind::Hash {
        Some(Modifier::Highlight)
    } else if kind == TokenKind::Bang {
        Some(Modifier::ShowOnly)
    } else if kind == TokenKind::Star {
        Some(Modifier::Disable)
    } else {
        None
    }
}

/// Whether a token can name the module that a statement calls. The words
/// `let`, `echo` and `assert` name modules where a statement starts.
pub open spec fn names_module(kind: TokenKind) -> bool {
    kind == TokenKind::Identifier || kind == TokenKind::Let || kind == TokenKind::Echo || kind
        == TokenKind::Assert
}

/// The rank of the rule for a level of precedence: the tighter the level, the lower.
pub open spec fn binary_rank(level: nat) -> nat {
    if level < 6 {
        (18 - level) as nat
    } else {
        12
    }
}

/// The rule `expression`.
pub open spec fn expression(tokens: Seq<Token>, text: Seq<char>, pos: int) -> Step<ExprView>
    decreases tokens.len() - pos, 20nat,
{
    let kind = kind_at(tokens, pos);
    if kind == TokenKind::Let {
        match forward(let_clauses(tokens, text, pos, Seq::empty()), tokens, pos) {
            Err(e) => Err(e),
            Ok((lets, next)) => match expression(tokens, text, next) {
                Err(e) => Err(e),
                Ok((body, end)) => Ok((ExprView::Let(lets, Box::new(body)), end)),
            },
        }
    } else if kind == TokenKind::Echo || kind == TokenKind::Assert {
        match forward(call_arguments(tokens, text, pos + 1), tokens, pos + 1) {
            Err(e) => Err(e),
            Ok((params, next)) => match expression(tokens, text, next) {
                Err(e) => Err(e),
                Ok((body, end)) => if kind == TokenKind::Echo {
                    Ok((ExprView::Echo(params, Box::new(body)), end))
                } else {
                    Ok((ExprView::Assert(params, Box::new(body)), end))
                },
            },
        }
    } else {
        ternary(tokens, text, pos)
    }
}

/// The rule `ternary`.
pub open spec fn ternary(tokens: Seq<Token>, text: Seq<char>, pos: int) -> Step<ExprView>
    decreases tokens.len() - pos, 19nat,
{
    match forward(binary(tokens, text, pos, 0), tokens, pos) {
        Err(e) => Err(e),
        Ok((condition, next)) => if kind_at(tokens, next) == TokenKind::Question {
            match forward(expression(tokens, text, next + 1), tokens, next + 1) {
                Err(e) => Err(e),
                Ok((if_true, colon)) => match expect(tokens, colon, TokenKind::Colon) {
                    Err(e) => Err(e),
                    Ok(after) => match expression(tokens, text, after) {
                        Err(e) => Err(e),
                        Ok((if_false, end)) => Ok(
                            (
                                ExprView::Ternary {
                                    condition: Box::new(condition),
                                    if_true: Box::new(if_true),
                                    if_false: Box::new(if_false),
                                },
                                end,
                            ),
                        ),
                    },
                },
            }
        } else {
            Ok((condition, next))
        },
    }
}

/// The rule `binary` from a level of precedence on: operands of the operators of
/// the level, which are expressions of the next level, grouped to the left.
pub open spec fn binary(tokens: Seq<Token>, text: Seq<char>, pos: int, level: nat) -> Step<
    ExprView,
>
    decreases tokens.len() - pos, binary_rank(level),
{
    if level >= 6 {
        unary(tokens, text, pos)
    } else {
        match forward(binary(tokens, text, pos, level + 1), tokens, pos) {
            Err(e) => Err(e),
            Ok((lhs, next)) => binary_rest(tokens, text, next, level, lhs),
        }
    }
}

/// The operators of a level and their right operands, after the operand `lhs`.
pub open spec fn binary_rest(
    tokens: Seq<Token>,
    text: Seq<char>,
    pos: int,
    level: nat,
    lhs: ExprView,
) -> Step<ExprView>
    decreases tokens.len() - pos, 0nat,
{
    match operator_at(kind_at(tokens, pos), level) {
        None => Ok((lhs, pos)),
        Some(op) => match forward(binary(tokens, text, pos + 1, level + 1), tokens, pos + 1) {
            Err(e) => Err(e),
            Ok((rhs, next)) => binary_rest(tokens, text, next, level, combine(op, lhs, rhs)),
        },
    }
}

/// The rule `unary`.
pub open spec fn unary(tokens: Seq<Token>, text: Seq<char>, pos: int) -> Step<ExprView>
    decreases tokens.len() - pos, 11nat,
{
    let kind = kind_at(tokens, pos);
    if kind == TokenKind::Minus || kind == TokenKind::Bang {
        match unary(tokens, text, pos + 1) {
            Err(e) => Err(e),
            Ok((inner, next)) => if kind == TokenKind::Minus {
                Ok((ExprView::Negative(Box::new(inner)), next))
            } else {
                Ok((ExprView::Not(Box::new(inner)), next))
            },
        }
    } else {
        match forward(primary(tokens, text, pos), tokens, pos) {
            Err(e) => Err(e),
            Ok((base, next)) => postfix_rest(tokens, text, next, base),
        }
    }
}

/// The indexes and field accesses that follow the expression `base`.
pub open spec fn postfix_rest(tokens: Seq<Token>, text: Seq<char>, pos: int, base: ExprView) -> Step<
    ExprView,
>
    decreases tokens.len() - pos, 0nat,
{
    let kind = kind_at(tokens, pos);
    if kind == TokenKind::LeftBracket {
        match forward(expression(tokens, text, pos + 1), tokens, pos + 1) {
            Err(e) => Err(e),
            Ok((index, close)) => match expect(tokens, close, TokenKind::RightBracket) {
                Err(e) => Err(e),
                Ok(after) => postfix_rest(
                    tokens,
                    text,
                    after,
                    ExprView::ArrayAccess { array: Box::new(base), index: Box::new(index) },
                ),
            },
        }
    } else if kind == TokenKind::Dot {
        if kind_at(tokens, pos + 1) == TokenKind::Identifier {
            postfix_rest(
                tokens,
                text,
                pos + 2,
                ExprView::FieldAccess { parent: Box::new(base), field: word(tokens, text, pos + 1) },
            )
        } else {
            Err(unexpected(tokens, pos + 1))
        }
    } else {
        Ok((base, pos))
    }
}

/// The rule `primary`.
pub open spec fn primary(tokens: Seq<Token>, text: Seq<char>, pos: int) -> Step<ExprView>
    decreases tokens.len() - pos, 9nat,
{
    let kind = kind_at(tokens, pos);
    if kind == TokenKind::True {
        Ok((ExprView::Boolean(true), pos + 1))
    } else if kind == TokenKind::False {
        Ok((ExprView::Boolean(false), pos + 1))
    } else if kind == TokenKind::Undef {
        Ok((ExprView::Undef, pos + 1))
    } else if kind == TokenKind::Number {
        Ok((ExprView::Number(word(tokens, text, pos)), pos + 1))
    } else if kind == TokenKind::Text {
        Ok((ExprView::Text(quoted(tokens, text, pos)), pos + 1))
    } else if kind == TokenKind::Identifier {
        if kind_at(tokens, pos + 1) == TokenKind::LeftParen {
            match call_arguments(tokens, text, pos + 1) {
                Err(e) => Err(e),
                Ok((parameters, next)) => Ok(
                    (
                        ExprView::Function(
                            FunctionCallView { name: word(tokens, text, pos), parameters },
                        ),
                        next,
                    ),
                ),
            }
        } else {
            Ok((ExprView::Variable(word(tokens, text, pos)), pos + 1))
        }
    } else if kind == TokenKind::LeftParen {
        match expression(tokens, text, pos + 1) {
            Err(e) => Err(e),
            Ok((inner, close)) => match expect(tokens, close, TokenKind::RightParen) {
                Err(e) => Err(e),
                Ok(after) => Ok((inner, after)),
            },
        }
    } else if kind == TokenKind::LeftBracket {
        bracket(tokens, text, pos + 1)
    } else {
        Err(unexpected(tokens, pos))
    }
}

/// What follows an opening bracket: a vector, a range or a list
/// comprehension.
pub open spec fn bracket(tokens: Seq<Token>, text: Seq<char>, pos: int) -> Step<ExprView>
    decreases tokens.len() - pos, 40nat,
{
    let kind = kind_at(tokens, pos);
    if kind == TokenKind::RightBracket {
        Ok((ExprView::Vector(Seq::empty()), pos + 1))
    } else if kind == TokenKind::For {
        comprehension(tokens, text, pos, Seq::empty())
    } else if kind == TokenKind::Let {
        match forward(let_clauses(tokens, text, pos, Seq::empty()), tokens, pos) {
            Err(e) => Err(e),
            Ok((lets, next)) => if kind_at(tokens, next) == TokenKind::For {
                comprehension(tokens, text, next, lets)
            } else {
                match forward(expression(tokens, text, next), tokens, next) {
                    Err(e) => Err(e),
                    Ok((body, after)) => bracket_tail(
                        tokens,
                        text,
                        after,
                        ExprView::Let(lets, Box::new(body)),
                    ),
                }
            },
        }
    } else {
        match forward(expression(tokens, text, pos), tokens, pos) {
            Err(e) => Err(e),
            Ok((first, next)) => bracket_tail(tokens, text, next, first),
        }
    }
}

/// A list comprehension from its `for` on.
pub open spec fn comprehension(
    tokens: Seq<Token>,
    text: Seq<char>,
    pos: int,
    lets: Seq<LetView>,
) -> Step<ExprView>
    decreases tokens.len() - pos, 39nat,
{
    match expect(tokens, pos, TokenKind::For) {
        Err(e) => Err(e),
        Ok(open) => match forward(call_arguments(tokens, text, open), tokens, open) {
            Err(e) => Err(e),
            Ok((variables, next)) => match forward(expression(tokens, text, next), tokens, next) {
                Err(e) => Err(e),
                Ok((body, close)) => match expect(tokens, close, TokenKind::RightBracket) {
                    Err(e) => Err(e),
                    Ok(after) => Ok(
                        (ExprView::ListComprehension { lets, variables, body: Box::new(body) }, after),
                    ),
                },
            },
        },
    }
}

/// What follows the first expression after an opening bracket.
pub open spec fn bracket_tail(tokens: Seq<Token>, text: Seq<char>, pos: int, first: ExprView) -> Step<
    ExprView,
>
    decreases tokens.len() - pos, 0nat,
{
    let kind = kind_at(tokens, pos);
    if kind == TokenKind::RightBracket {
        Ok((ExprView::Vector(seq![first]), pos + 1))
    } else if kind == TokenKind::Comma {
        elements(tokens, text, pos + 1, seq![first])
    } else if kind == TokenKind::Colon {
        match forward(expression(tokens, text, pos + 1), tokens, pos + 1) {
            Err(e) => Err(e),
            Ok((second, next)) => if kind_at(tokens, next) == TokenKind::Colon {
                match forward(expression(tokens, text, next + 1), tokens, next + 1) {
                    Err(e) => Err(e),
                    Ok((third, close)) => match expect(tokens, close, TokenKind::RightBracket) {
                        Err(e) => Err(e),
                        Ok(after) => Ok(
                            (
                                ExprView::Range {
                                    start: Box::new(first),
                                    end: Box::new(third),
                                    increment: Some(Box::new(second)),
                                },
                                after,
                            ),
                        ),
                    },
                }
            } else {
                match expect(tokens, next, TokenKind::RightBracket) {
                    Err(e) => Err(e),
                    Ok(after) => Ok(
                        (
                            ExprView::Range {
                                start: Box::new(first),
                                end: Box::new(second),
                                increment: None,
                            },
                            after,
                        ),
                    ),
                }
            },
        }
    } else {
        Err(unexpected(tokens, pos))
    }
}

/// The elements of a vector after a comma, up to the closing bracket.
pub open spec fn elements(tokens: Seq<Token>, text: Seq<char>, pos: int, list: Seq<ExprView>) -> Step<
    ExprView,
>
    decreases tokens.len() - pos, 41nat,
{
    if kind_at(tokens, pos) == TokenKind::RightBracket {
        Ok((ExprView::Vector(list), pos + 1))
    } else {
        match forward(expression(tokens, text, pos), tokens, pos) {
            Err(e) => Err(e),
            Ok((value, next)) => if kind_at(tokens, next) == TokenKind::Comma {
                elements(tokens, text, next + 1, list.push(value))
            } else if kind_at(tokens, next) == TokenKind::RightBracket {
                Ok((ExprView::Vector(list.push(value)), next + 1))
            } else {
                Err(unexpected(tokens, next))
            },
        }
    }
}

/// The `let` clauses that start at `pos`, after those of `list`.
pub open spec fn let_clauses(
    tokens: Seq<Token>,
    text: Seq<char>,
    pos: int,
    list: Seq<LetView>,
) -> Step<Seq<LetView>>
    decreases tokens.len() - pos, 3nat,
{
    if kind_at(tokens, pos) == TokenKind::Let {
        match forward(call_arguments(tokens, text, pos + 1), tokens, pos + 1) {
            Err(e) => Err(e),
            Ok((vars, next)) => let_clauses(tokens, text, next, list.push(LetView { vars })),
        }
    } else {
        Ok((list, pos))
    }
}

/// A list of arguments in parentheses.
pub open spec fn call_arguments(tokens: Seq<Token>, text: Seq<char>, pos: int) -> Step<
    Seq<ParameterValueView>,
>
    decreases tokens.len() - pos, 31nat,
{
    match expect(tokens, pos, TokenKind::LeftParen) {
        Err(e) => Err(e),
        Ok(open) => match arguments(tokens, text, open, Seq::empty()) {
            Err(e) => Err(e),
            Ok((list, close)) => match expect(tokens, close, TokenKind::RightParen) {
                Err(e) => Err(e),
                Ok(after) => Ok((list, after)),
            },
        },
    }
}

/// The arguments from `pos` up to the closing parenthesis, after those of
/// `list`.
pub open spec fn arguments(
    tokens: Seq<Token>,
    text: Seq<char>,
    pos: int,
    list: Seq<ParameterValueView>,
) -> Step<Seq<ParameterValueView>>
    decreases tokens.len() - pos, 30nat,
{
    if kind_at(tokens, pos) == TokenKind::RightParen {
        Ok((list, pos))
    } else {
        match forward(argument(tokens, text, pos), tokens, pos) {
            Err(e) => Err(e),
            Ok((value, next)) => if kind_at(tokens, next) == TokenKind::Comma {
                arguments(tokens, text, next + 1, list.push(value))
            } else {
                Ok((list.push(value), next))
            },
        }
    }
}

/// One argument, with its name if it has one.
pub open spec fn argument(tokens: Seq<Token>, text: Seq<char>, pos: int) -> Step<
    ParameterValueView,
>
    decreases tokens.len() - pos, 25nat,
{
    if kind_at(tokens, pos) == TokenKind::Identifier && kind_at(tokens, pos + 1)
        == TokenKind::Assign {
        match expression(tokens, text, pos + 2) {
            Err(e) => Err(e),
            Ok((value, next)) => Ok(
                (ParameterValueView { name: Some(word(tokens, text, pos)), value }, next),
            ),
        }
    } else {
        match expression(tokens, text, pos) {
            Err(e) => Err(e),
            Ok((value, next)) => Ok((ParameterValueView { name: None, value }, next)),
        }
    }
}

/// The list of parameters of a definition, in parentheses.
pub open spec fn parameter_list(tokens: Seq<Token>, text: Seq<char>, pos: int) -> Step<
    Seq<ParameterDefinitionView>,
> {
    match expect(tokens, pos, TokenKind::LeftParen) {
        Err(e) => Err(e),
        Ok(open) => match parameters(tokens, text, open, Seq::empty()) {
            Err(e) => Err(e),
            Ok((list, close)) => match expect(tokens, close, TokenKind::RightParen) {
                Err(e) => Err(e),
                Ok(after) => Ok((list, after)),
            },
        },
    }
}

/// One parameter of a definition, with its default value if it has one.
pub open spec fn parameter(tokens: Seq<Token>, text: Seq<char>, pos: int) -> Step<
    ParameterDefinitionView,
> {
    if kind_at(tokens, pos) != TokenKind::Identifier {
        Err(unexpected(tokens, pos))
    } else if kind_at(tokens, pos + 1) == TokenKind::Assign {
        match expression(tokens, text, pos + 2) {
            Err(e) => Err(e),
            Ok((value, next)) => Ok(
                (
                    ParameterDefinitionView {
                        name: word(tokens, text, pos),
                        default_value: Some(value),
                    },
                    next,
                ),
            ),
        }
    } else {
        Ok((ParameterDefinitionView { name: word(tokens, text, pos), default_value: None }, pos + 1))
    }
}

/// The parameters from `pos` up to the closing parenthesis, after those of
/// `list`.
pub open spec fn parameters(
    tokens: Seq<Token>,
    text: Seq<char>,
    pos: int,
    list: Seq<ParameterDefinitionView>,
) -> Step<Seq<ParameterDefinitionView>>
    decreases tokens.len() - pos,
{
    if kind_at(tokens, pos) == TokenKind::RightParen {
        Ok((list, pos))
    } else {
        match forward(parameter(tokens, text, pos), tokens, pos) {
            Err(e) => Err(e),
            Ok((value, next)) => if kind_at(tokens, next) == TokenKind::Comma {
                parameters(tokens, text, next + 1, list.push(value))
            } else {
                Ok((list.push(value), next))
            },
        }
    }
}

/// The rule `statement`.
pub open spec fn statement(tokens: Seq<Token>, text: Seq<char>, pos: int) -> Step<StatementView>
    decreases tokens.len() - pos, 50nat,
{
    let kind = kind_at(tokens, pos);
    if kind == TokenKind::Semicolon {
        Ok((StatementView::NoOp, pos + 1))
    } else if kind == TokenKind::LeftBrace {
        match block_items(tokens, text, pos + 1, Seq::empty()) {
            Err(e) => Err(e),
            Ok((items, after)) => Ok((StatementView::StatementList(items), after)),
        }
    } else if kind == TokenKind::Module {
        if kind_at(tokens, pos + 1) != TokenKind::Identifier {
            Err(unexpected(tokens, pos + 1))
        } else {
            match forward(parameter_list(tokens, text, pos + 2), tokens, pos + 2) {
                Err(e) => Err(e),
                Ok((args, next)) => match statement(tokens, text, next) {
                    Err(e) => Err(e),
                    Ok((body, end)) => Ok(
                        (
                            StatementView::ModuleDefinition {
                                name: word(tokens, text, pos + 1),
                                args,
                                body: Box::new(body),
                            },
                            end,
                        ),
                    ),
                },
            }
        }
    } else if kind == TokenKind::Function {
        function_definition(tokens, text, pos)
    } else if kind == TokenKind::Include {
        if kind_at(tokens, pos + 1) == TokenKind::Path {
            Ok((StatementView::Include(quoted(tokens, text, pos + 1)), pos + 2))
        } else {
            Err(unexpected(tokens, pos + 1))
        }
    } else if kind == TokenKind::Use {
        if kind_at(tokens, pos + 1) == TokenKind::Path {
            Ok((StatementView::Use(quoted(tokens, text, pos + 1)), pos + 2))
        } else {
            Err(unexpected(tokens, pos + 1))
        }
    } else if kind == TokenKind::If {
        conditional(tokens, text, pos)
    } else if kind == TokenKind::Identifier && kind_at(tokens, pos + 1) == TokenKind::Assign {
        match expression(tokens, text, pos + 2) {
            Err(e) => Err(e),
            Ok((value, semicolon)) => match expect(tokens, semicolon, TokenKind::Semicolon) {
                Err(e) => Err(e),
                Ok(end) => Ok(
                    (StatementView::VariableDeclaration(word(tokens, text, pos), value), end),
                ),
            },
        }
    } else {
        match modifier_of(kind) {
            Some(modifier) => action(tokens, text, pos + 1, Some(modifier)),
            None => action(tokens, text, pos, None),
        }
    }
}

/// A function definition, from the word `function` on.
pub open spec fn function_definition(tokens: Seq<Token>, text: Seq<char>, pos: int) -> Step<
    StatementView,
> {
    if kind_at(tokens, pos) != TokenKind::Function {
        Err(unexpected(tokens, pos))
    } else if kind_at(tokens, pos + 1) != TokenKind::Identifier {
        Err(unexpected(tokens, pos + 1))
    } else {
        match parameter_list(tokens, text, pos + 2) {
            Err(e) => Err(e),
            Ok((params, next)) => match expect(tokens, next, TokenKind::Assign) {
                Err(e) => Err(e),
                Ok(start) => match expression(tokens, text, start) {
                    Err(e) => Err(e),
                    Ok((body, semicolon)) => match expect(tokens, semicolon, TokenKind::Semicolon) {
                        Err(e) => Err(e),
                        Ok(end) => Ok(
                            (
                                StatementView::FunctionDefinition(
                                    word(tokens, text, pos + 1),
                                    params,
                                    body,
                                ),
                                end,
                            ),
                        ),
                    },
                },
            },
        }
    }
}

/// An `if`, from the word on. An `else` belongs to the nearest `if`.
pub open spec fn conditional(tokens: Seq<Token>, text: Seq<char>, pos: int) -> Step<StatementView>
    decreases tokens.len() - pos, 49nat,
{
    match expect(tokens, pos, TokenKind::If) {
        Err(e) => Err(e),
        Ok(open) => match expect(tokens, open, TokenKind::LeftParen) {
            Err(e) => Err(e),
            Ok(start) => match forward(expression(tokens, text, start), tokens, start) {
                Err(e) => Err(e),
                Ok((condition, close)) => match expect(tokens, close, TokenKind::RightParen) {
                    Err(e) => Err(e),
                    Ok(then) => match forward(body(tokens, text, then), tokens, then) {
                        Err(e) => Err(e),
                        Ok((if_true, next)) => if kind_at(tokens, next) == TokenKind::Else {
                            match statement(tokens, text, next + 1) {
                                Err(e) => Err(e),
                                Ok((if_false, end)) => Ok(
                                    (
                                        StatementView::If {
                                            condition,
                                            if_true,
                                            if_false: seq![if_false],
                                        },
                                        end,
                                    ),
                                ),
                            }
                        } else {
                            Ok(
                                (
                                    StatementView::If { condition, if_true, if_false: Seq::empty() },
                                    next,
                                ),
                            )
                        },
                    },
                },
            },
        },
    }
}

/// A call of a module, or a `for`, with the modifier that stands before it.
pub open spec fn action(
    tokens: Seq<Token>,
    text: Seq<char>,
    pos: int,
    modifier: Option<Modifier>,
) -> Step<StatementView>
    decreases tokens.len() - pos, 45nat,
{
    let kind = kind_at(tokens, pos);
    if kind == TokenKind::For || names_module(kind) {
        match forward(call_arguments(tokens, text, pos + 1), tokens, pos + 1) {
            Err(e) => Err(e),
            Ok((params, next)) => match body(tokens, text, next) {
                Err(e) => Err(e),
                Ok((children, end)) => if kind == TokenKind::For {
                    Ok((StatementView::For { variables: params, body: children, modifier }, end))
                } else {
                    Ok(
                        (
                            StatementView::ModuleCall(
                                ModuleCallView {
                                    function: word(tokens, text, pos),
                                    params,
                                    children,
                                    modifier,
                                },
                            ),
                            end,
                        ),
                    )
                },
            },
        }
    } else {
        Err(unexpected(tokens, pos))
    }
}

/// What a call or a branch holds: nothing, a block, or one statement.
pub open spec fn body(tokens: Seq<Token>, text: Seq<char>, pos: int) -> Step<Seq<StatementView>>
    decreases tokens.len() - pos, 55nat,
{
    let kind = kind_at(tokens, pos);
    if kind == TokenKind::Semicolon {
        Ok((Seq::empty(), pos + 1))
    } else if kind == TokenKind::LeftBrace {
        block_items(tokens, text, pos + 1, Seq::empty())
    } else {
        match statement(tokens, text, pos) {
            Err(e) => Err(e),
            Ok((single, next)) => Ok((seq![single], next)),
        }
    }
}

/// The statements from `pos` up to the closing brace, after those of
/// `list`.
pub open spec fn block_items(
    tokens: Seq<Token>,
    text: Seq<char>,
    pos: int,
    list: Seq<StatementView>,
) -> Step<Seq<StatementView>>
    decreases tokens.len() - pos, 60nat,
{
    if kind_at(tokens, pos) == TokenKind::RightBrace {
        Ok((list, pos + 1))
    } else {
        match forward(statement(tokens, text, pos), tokens, pos) {
            Err(e) => Err(e),
            Ok((item, next)) => block_items(tokens, text, next, list.push(item)),
        }
    }
}

/// The statements from `pos` up to the end of the text, after those of
/// `list`.
pub open spec fn document_items(
    tokens: Seq<Token>,
    text: Seq<char>,
    pos: int,
    list: Seq<StatementView>,
) -> Result<Seq<StatementView>, SyntaxError>
    decreases tokens.len() - pos,
{
    if kind_at(tokens, pos) == TokenKind::End {
        Ok(list)
    } else {
        match forward(statement(tokens, text, pos), tokens, pos) {
            Err(e) => Err(e),
            Ok((item, next)) => document_items(tokens, text, next, list.push(item)),
        }
    }
}

/// The document that a text spells: the statements that its tokens spell,
/// one after the other, up to the end of the text.
pub open spec fn document_of(text: Seq<char>) -> Result<Seq<StatementView>, SyntaxError> {
    match tokens_of(text) {
        Err(e) => Err(e),
        Ok(tokens) => document_items(tokens, text, 0, Seq::empty()),
    }
}

} // verus!
