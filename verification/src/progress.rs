//! Every rule of the grammar that reads something consumes at least one
//! token, and no rule reads past the last one.
//!
//! The rules of [`crate::grammar`] check each step with
//! [`crate::grammar::forward`] so that their recursion is evidently well
//! founded. The laws of this module show that the check never turns a tree
//! into an error: a step that succeeds has moved forward anyway.

use crate::ast::{ExprView, LetView, Modifier, ParameterDefinitionView, ParameterValueView, StatementView};
use crate::grammar::{
    action, argument, arguments, binary, binary_rank, binary_rest, block_items, body, bracket,
    bracket_tail, call_arguments, comprehension, conditional, elements, expect, expression,
    forward, function_definition, kind_at, let_clauses, modifier_of, names_module, operator_at,
    parameter, parameter_list, parameters, postfix_rest, primary, statement, ternary, unary, Step,
};
use crate::tokens::{Token, TokenKind};
use vstd::prelude::*;

verus! {

/// A successful step has consumed at least one token, and none past the
/// last.
pub open spec fn moves<T>(step: Step<T>, tokens: Seq<Token>, pos: int) -> bool {
    match step {
        Ok((_, next)) => pos < next <= tokens.len(),
        Err(_) => true,
    }
}

/// A successful step has not moved backward, nor past the last token.
pub open spec fn stays<T>(step: Step<T>, tokens: Seq<Token>, pos: int) -> bool {
    match step {
        Ok((_, next)) => pos <= next <= tokens.len(),
        Err(_) => true,
    }
}

/// A step that moves passes the check unchanged.
pub proof fn law_forward_keeps_what_moves<T>(step: Step<T>, tokens: Seq<Token>, pos: int)
    requires
        moves(step, tokens, pos),
    ensures
        forward(step, tokens, pos) == step,
{
}

/// An expression consumes at least one token.
pub proof fn law_expression_moves(tokens: Seq<Token>, text: Seq<char>, pos: int)
    ensures
        moves(expression(tokens, text, pos), tokens, pos),
    decreases tokens.len() - pos, 20nat,
{
    let kind = kind_at(tokens, pos);
    if kind == TokenKind::Let {
        match forward(let_clauses(tokens, text, pos, Seq::empty()), tokens, pos) {
            Ok((_, next)) => law_expression_moves(tokens, text, next),
            Err(_) => {},
        }
    } else if kind == TokenKind::Echo || kind == TokenKind::Assert {
        match forward(call_arguments(tokens, text, pos + 1), tokens, pos + 1) {
            Ok((_, next)) => law_expression_moves(tokens, text, next),
            Err(_) => {},
        }
    } else {
        law_ternary_moves(tokens, text, pos);
    }
}

/// A conditional expression consumes at least one token.
pub proof fn law_ternary_moves(tokens: Seq<Token>, text: Seq<char>, pos: int)
    ensures
        moves(ternary(tokens, text, pos), tokens, pos),
    decreases tokens.len() - pos, 19nat,
{
    match forward(binary(tokens, text, pos, 0), tokens, pos) {
        Ok((_, next)) => {
            if kind_at(tokens, next) == TokenKind::Question {
                match forward(expression(tokens, text, next + 1), tokens, next + 1) {
                    Ok((_, colon)) => match expect(tokens, colon, TokenKind::Colon) {
                        Ok(after) => law_expression_moves(tokens, text, after),
                        Err(_) => {},
                    },
                    Err(_) => {},
                }
            }
        },
        Err(_) => {},
    }
}

/// An expression of any level of precedence consumes at least one token.
pub proof fn law_binary_moves(tokens: Seq<Token>, text: Seq<char>, pos: int, level: nat)
    ensures
        moves(binary(tokens, text, pos, level), tokens, pos),
    decreases tokens.len() - pos, binary_rank(level),
{
    if level >= 6 {
        law_unary_moves(tokens, text, pos);
    } else {
        match forward(binary(tokens, text, pos, level + 1), tokens, pos) {
            Ok((lhs, next)) => law_binary_rest_stays(tokens, text, next, level, lhs),
            Err(_) => {},
        }
    }
}

/// The operators that follow an operand do not move backward.
pub proof fn law_binary_rest_stays(
    tokens: Seq<Token>,
    text: Seq<char>,
    pos: int,
    level: nat,
    lhs: ExprView,
)
    requires
        pos <= tokens.len(),
    ensures
        stays(binary_rest(tokens, text, pos, level, lhs), tokens, pos),
    decreases tokens.len() - pos, 0nat,
{
    match operator_at(kind_at(tokens, pos), level) {
        None => {},
        Some(op) => match forward(binary(tokens, text, pos + 1, level + 1), tokens, pos + 1) {
            Ok((rhs, next)) => law_binary_rest_stays(
                tokens,
                text,
                next,
                level,
                crate::grammar::combine(op, lhs, rhs),
            ),
            Err(_) => {},
        },
    }
}

/// A unary expression consumes at least one token.
pub proof fn law_unary_moves(tokens: Seq<Token>, text: Seq<char>, pos: int)
    ensures
        moves(unary(tokens, text, pos), tokens, pos),
    decreases tokens.len() - pos, 11nat,
{
    let kind = kind_at(tokens, pos);
    if kind == TokenKind::Minus || kind == TokenKind::Bang {
        law_unary_moves(tokens, text, pos + 1);
    } else {
        match forward(primary(tokens, text, pos), tokens, pos) {
            Ok((base, next)) => law_postfix_rest_stays(tokens, text, next, base),
            Err(_) => {},
        }
    }
}

/// The indexes and field accesses that follow an expression do not move backward.
pub proof fn law_postfix_rest_stays(tokens: Seq<Token>, text: Seq<char>, pos: int, base: ExprView)
    requires
        pos <= tokens.len(),
    ensures
        stays(postfix_rest(tokens, text, pos, base), tokens, pos),
    decreases tokens.len() - pos, 0nat,
{
    let kind = kind_at(tokens, pos);
    if kind == TokenKind::LeftBracket {
        match forward(expression(tokens, text, pos + 1), tokens, pos + 1) {
            Ok((index, close)) => match expect(tokens, close, TokenKind::RightBracket) {
                Ok(after) => law_postfix_rest_stays(
                    tokens,
                    text,
                    after,
                    ExprView::ArrayAccess { array: Box::new(base), index: Box::new(index) },
                ),
                Err(_) => {},
            },
            Err(_) => {},
        }
    } else if kind == TokenKind::Dot {
        if kind_at(tokens, pos + 1) == TokenKind::Identifier {
            law_postfix_rest_stays(
                tokens,
                text,
                pos + 2,
                ExprView::FieldAccess {
                    parent: Box::new(base),
                    field: crate::grammar::word(tokens, text, pos + 1),
                },
            );
        }
    }
}

/// A primary expression consumes at least one token.
pub proof fn law_primary_moves(tokens: Seq<Token>, text: Seq<char>, pos: int)
    ensures
        moves(primary(tokens, text, pos), tokens, pos),
    decreases tokens.len() - pos, 9nat,
{
    let kind = kind_at(tokens, pos);
    if kind == TokenKind::Identifier {
        if kind_at(tokens, pos + 1) == TokenKind::LeftParen {
            law_call_arguments_moves(tokens, text, pos + 1);
        }
    } else if kind == TokenKind::LeftParen {
        law_expression_moves(tokens, text, pos + 1);
    } else if kind == TokenKind::LeftBracket {
        law_bracket_moves(tokens, text, pos + 1);
    }
}

/// What follows an opening bracket consumes at least the closing one.
pub proof fn law_bracket_moves(tokens: Seq<Token>, text: Seq<char>, pos: int)
    ensures
        moves(bracket(tokens, text, pos), tokens, pos),
    decreases tokens.len() - pos, 40nat,
{
    let kind = kind_at(tokens, pos);
    if kind == TokenKind::RightBracket {
    } else if kind == TokenKind::For {
        law_comprehension_moves(tokens, text, pos, Seq::empty());
    } else if kind == TokenKind::Let {
        match forward(let_clauses(tokens, text, pos, Seq::empty()), tokens, pos) {
            Ok((lets, next)) => {
                if kind_at(tokens, next) == TokenKind::For {
                    law_comprehension_moves(tokens, text, next, lets);
                } else {
                    match forward(expression(tokens, text, next), tokens, next) {
                        Ok((inner, after)) => law_bracket_tail_moves(
                            tokens,
                            text,
                            after,
                            ExprView::Let(lets, Box::new(inner)),
                        ),
                        Err(_) => {},
                    }
                }
            },
            Err(_) => {},
        }
    } else {
        match forward(expression(tokens, text, pos), tokens, pos) {
            Ok((first, next)) => law_bracket_tail_moves(tokens, text, next, first),
            Err(_) => {},
        }
    }
}

/// A list comprehension consumes at least one token.
pub proof fn law_comprehension_moves(
    tokens: Seq<Token>,
    text: Seq<char>,
    pos: int,
    lets: Seq<LetView>,
)
    ensures
        moves(comprehension(tokens, text, pos, lets), tokens, pos),
{
}

/// What follows the first expression in brackets consumes at least the closing bracket.
pub proof fn law_bracket_tail_moves(tokens: Seq<Token>, text: Seq<char>, pos: int, first: ExprView)
    ensures
        moves(bracket_tail(tokens, text, pos, first), tokens, pos),
    decreases tokens.len() - pos, 0nat,
{
    if kind_at(tokens, pos) == TokenKind::Comma {
        law_elements_moves(tokens, text, pos + 1, seq![first]);
    }
}

/// The elements of a vector consume at least the closing bracket.
pub proof fn law_elements_moves(
    tokens: Seq<Token>,
    text: Seq<char>,
    pos: int,
    list: Seq<ExprView>,
)
    ensures
        moves(elements(tokens, text, pos, list), tokens, pos),
    decreases tokens.len() - pos, 41nat,
{
    if kind_at(tokens, pos) != TokenKind::RightBracket {
        match forward(expression(tokens, text, pos), tokens, pos) {
            Ok((value, next)) => {
                if kind_at(tokens, next) == TokenKind::Comma {
                    law_elements_moves(tokens, text, next + 1, list.push(value));
                }
            },
            Err(_) => {},
        }
    }
}

/// The `let` clauses do not move backward, and move forward where there is one.
pub proof fn law_let_clauses_stay(
    tokens: Seq<Token>,
    text: Seq<char>,
    pos: int,
    list: Seq<LetView>,
)
    requires
        pos <= tokens.len(),
    ensures
        stays(let_clauses(tokens, text, pos, list), tokens, pos),
        kind_at(tokens, pos) == TokenKind::Let ==> moves(
            let_clauses(tokens, text, pos, list),
            tokens,
            pos,
        ),
    decreases tokens.len() - pos, 3nat,
{
    if kind_at(tokens, pos) == TokenKind::Let {
        match forward(call_arguments(tokens, text, pos + 1), tokens, pos + 1) {
            Ok((vars, next)) => law_let_clauses_stay(
                tokens,
                text,
                next,
                list.push(LetView { vars }),
            ),
            Err(_) => {},
        }
    }
}

/// A list of arguments consumes at least its parentheses.
pub proof fn law_call_arguments_moves(tokens: Seq<Token>, text: Seq<char>, pos: int)
    ensures
        moves(call_arguments(tokens, text, pos), tokens, pos),
    decreases tokens.len() - pos, 31nat,
{
    match expect(tokens, pos, TokenKind::LeftParen) {
        Ok(open) => law_arguments_stay(tokens, text, open, Seq::empty()),
        Err(_) => {},
    }
}

/// The arguments between the parentheses do not move backward.
pub proof fn law_arguments_stay(
    tokens: Seq<Token>,
    text: Seq<char>,
    pos: int,
    list: Seq<ParameterValueView>,
)
    requires
        pos <= tokens.len(),
    ensures
        stays(arguments(tokens, text, pos, list), tokens, pos),
    decreases tokens.len() - pos, 30nat,
{
    if kind_at(tokens, pos) != TokenKind::RightParen {
        match forward(argument(tokens, text, pos), tokens, pos) {
            Ok((value, next)) => {
                if kind_at(tokens, next) == TokenKind::Comma {
                    law_arguments_stay(tokens, text, next + 1, list.push(value));
                }
            },
            Err(_) => {},
        }
    }
}

/// An argument consumes at least one token.
pub proof fn law_argument_moves(tokens: Seq<Token>, text: Seq<char>, pos: int)
    ensures
        moves(argument(tokens, text, pos), tokens, pos),
    decreases tokens.len() - pos, 25nat,
{
    if kind_at(tokens, pos) == TokenKind::Identifier && kind_at(tokens, pos + 1)
        == TokenKind::Assign {
        law_expression_moves(tokens, text, pos + 2);
    } else {
        law_expression_moves(tokens, text, pos);
    }
}

/// A parameter consumes at least one token.
pub proof fn law_parameter_moves(tokens: Seq<Token>, text: Seq<char>, pos: int)
    ensures
        moves(parameter(tokens, text, pos), tokens, pos),
{
    if kind_at(tokens, pos) == TokenKind::Identifier && kind_at(tokens, pos + 1)
        == TokenKind::Assign {
        law_expression_moves(tokens, text, pos + 2);
    }
}

/// The parameters between the parentheses do not move backward.
pub proof fn law_parameters_stay(
    tokens: Seq<Token>,
    text: Seq<char>,
    pos: int,
    list: Seq<ParameterDefinitionView>,
)
    requires
        pos <= tokens.len(),
    ensures
        stays(parameters(tokens, text, pos, list), tokens, pos),
    decreases tokens.len() - pos,
{
    if kind_at(tokens, pos) != TokenKind::RightParen {
        match forward(parameter(tokens, text, pos), tokens, pos) {
            Ok((value, next)) => {
                if kind_at(tokens, next) == TokenKind::Comma {
                    law_parameters_stay(tokens, text, next + 1, list.push(value));
                }
            },
            Err(_) => {},
        }
    }
}

/// A list of parameters consumes at least its parentheses.
pub proof fn law_parameter_list_moves(tokens: Seq<Token>, text: Seq<char>, pos: int)
    ensures
        moves(parameter_list(tokens, text, pos), tokens, pos),
{
    match expect(tokens, pos, TokenKind::LeftParen) {
        Ok(open) => law_parameters_stay(tokens, text, open, Seq::empty()),
        Err(_) => {},
    }
}

/// A statement consumes at least one token.
pub proof fn law_statement_moves(tokens: Seq<Token>, text: Seq<char>, pos: int)
    ensures
        moves(statement(tokens, text, pos), tokens, pos),
    decreases tokens.len() - pos, 50nat,
{
    let kind = kind_at(tokens, pos);
    if kind == TokenKind::Semicolon {
    } else if kind == TokenKind::LeftBrace {
        law_block_items_move(tokens, text, pos + 1, Seq::empty());
    } else if kind == TokenKind::Module {
        if kind_at(tokens, pos + 1) == TokenKind::Identifier {
            match forward(parameter_list(tokens, text, pos + 2), tokens, pos + 2) {
                Ok((_, next)) => law_statement_moves(tokens, text, next),
                Err(_) => {},
            }
        }
    } else if kind == TokenKind::Function {
        law_function_definition_moves(tokens, text, pos);
    } else if kind == TokenKind::Include {
    } else if kind == TokenKind::Use {
    } else if kind == TokenKind::If {
        law_conditional_moves(tokens, text, pos);
    } else if kind == TokenKind::Identifier && kind_at(tokens, pos + 1) == TokenKind::Assign {
        law_expression_moves(tokens, text, pos + 2);
    } else {
        match modifier_of(kind) {
            Some(modifier) => law_action_moves(tokens, text, pos + 1, Some(modifier)),
            None => law_action_moves(tokens, text, pos, None),
        }
    }
}

/// A function definition consumes at least one token.
pub proof fn law_function_definition_moves(tokens: Seq<Token>, text: Seq<char>, pos: int)
    ensures
        moves(function_definition(tokens, text, pos), tokens, pos),
{
    if kind_at(tokens, pos) == TokenKind::Function && kind_at(tokens, pos + 1)
        == TokenKind::Identifier {
        law_parameter_list_moves(tokens, text, pos + 2);
        match parameter_list(tokens, text, pos + 2) {
            Ok((_, next)) => match expect(tokens, next, TokenKind::Assign) {
                Ok(start) => law_expression_moves(tokens, text, start),
                Err(_) => {},
            },
            Err(_) => {},
        }
    }
}

/// An `if` consumes at least one token.
pub proof fn law_conditional_moves(tokens: Seq<Token>, text: Seq<char>, pos: int)
    ensures
        moves(conditional(tokens, text, pos), tokens, pos),
    decreases tokens.len() - pos, 49nat,
{
    match expect(tokens, pos, TokenKind::If) {
        Ok(open) => match expect(tokens, open, TokenKind::LeftParen) {
            Ok(start) => match forward(expression(tokens, text, start), tokens, start) {
                Ok((_, close)) => match expect(tokens, close, TokenKind::RightParen) {
                    Ok(then) => match forward(body(tokens, text, then), tokens, then) {
                        Ok((_, next)) => {
                            if kind_at(tokens, next) == TokenKind::Else {
                                law_statement_moves(tokens, text, next + 1);
                            }
                        },
                        Err(_) => {},
                    },
                    Err(_) => {},
                },
                Err(_) => {},
            },
            Err(_) => {},
        },
        Err(_) => {},
    }
}

/// A call or a `for` consumes at least one token.
pub proof fn law_action_moves(
    tokens: Seq<Token>,
    text: Seq<char>,
    pos: int,
    modifier: Option<Modifier>,
)
    ensures
        moves(action(tokens, text, pos, modifier), tokens, pos),
    decreases tokens.len() - pos, 45nat,
{
    let kind = kind_at(tokens, pos);
    if kind == TokenKind::For || names_module(kind) {
        match forward(call_arguments(tokens, text, pos + 1), tokens, pos + 1) {
            Ok((_, next)) => law_body_moves(tokens, text, next),
            Err(_) => {},
        }
    }
}

/// A body consumes at least one token.
pub proof fn law_body_moves(tokens: Seq<Token>, text: Seq<char>, pos: int)
    ensures
        moves(body(tokens, text, pos), tokens, pos),
    decreases tokens.len() - pos, 55nat,
{
    let kind = kind_at(tokens, pos);
    if kind == TokenKind::Semicolon {
    } else if kind == TokenKind::LeftBrace {
        law_block_items_move(tokens, text, pos + 1, Seq::empty());
    } else {
        law_statement_moves(tokens, text, pos);
    }
}

/// The statements of a block consume at least the closing brace.
pub proof fn law_block_items_move(
    tokens: Seq<Token>,
    text: Seq<char>,
    pos: int,
    list: Seq<StatementView>,
)
    ensures
        moves(block_items(tokens, text, pos, list), tokens, pos),
    decreases tokens.len() - pos, 60nat,
{
    if kind_at(tokens, pos) != TokenKind::RightBrace {
        match forward(statement(tokens, text, pos), tokens, pos) {
            Ok((item, next)) => law_block_items_move(tokens, text, next, list.push(item)),
            Err(_) => {},
        }
    }
}

} // verus!
