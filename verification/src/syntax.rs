//! Reads a document: the recursive-descent parser that follows
//! [`crate::grammar`] rule by rule.

use crate::ast::{
    exprs_view, lets_view, parameter_definitions_view, parameter_values_view, statements_view,
    Expr, ExprView, FunctionCall, Let, LetView, Modifier, ModuleCall, Opcode,
    ParameterDefinition, ParameterDefinitionView, ParameterValue, ParameterValueView, Statement,
    StatementView,
};
use crate::grammar;
use crate::grammar::{Binary, Step};
use crate::lexer::{to_chars, tokenize};
use crate::tokens::{SyntaxError, Token, TokenKind};
use vstd::prelude::*;
use vstd::string::StrSliceExecFns;

verus! {

/// A text with its tokens.
pub struct Parser<'a> {
    pub content: &'a str,
    /// Whether the text is plain ASCII, so that it can be cut in constant
    /// time.
    pub ascii: bool,
    /// The number of characters of the text.
    pub length: usize,
    pub tokens: Vec<Token>,
}

/// The step that a result of the parser stands for.
pub open spec fn expr_step(r: Result<(Expr, usize), SyntaxError>) -> Step<ExprView> {
    match r {
        Ok((value, next)) => Ok((value@, next as int)),
        Err(e) => Err(e),
    }
}

/// The step that a statement read stands for.
pub open spec fn statement_step(r: Result<(Statement, usize), SyntaxError>) -> Step<StatementView> {
    match r {
        Ok((value, next)) => Ok((value@, next as int)),
        Err(e) => Err(e),
    }
}

/// The step that a list of statements read stands for.
pub open spec fn statements_step(r: Result<(Vec<Statement>, usize), SyntaxError>) -> Step<
    Seq<StatementView>,
> {
    match r {
        Ok((list, next)) => Ok((statements_view(list@), next as int)),
        Err(e) => Err(e),
    }
}

/// The step that an argument read stands for.
pub open spec fn value_step(r: Result<(ParameterValue, usize), SyntaxError>) -> Step<
    ParameterValueView,
> {
    match r {
        Ok((value, next)) => Ok((value@, next as int)),
        Err(e) => Err(e),
    }
}

/// The step that a list of arguments read stands for.
pub open spec fn values_step(r: Result<(Vec<ParameterValue>, usize), SyntaxError>) -> Step<
    Seq<ParameterValueView>,
> {
    match r {
        Ok((list, next)) => Ok((parameter_values_view(list@), next as int)),
        Err(e) => Err(e),
    }
}

/// The step that a list of `let` clauses read stands for.
pub open spec fn lets_step(r: Result<(Vec<Let>, usize), SyntaxError>) -> Step<Seq<LetView>> {
    match r {
        Ok((list, next)) => Ok((lets_view(list@), next as int)),
        Err(e) => Err(e),
    }
}

/// The step that a parameter read stands for.
pub open spec fn definition_step(r: Result<(ParameterDefinition, usize), SyntaxError>) -> Step<
    ParameterDefinitionView,
> {
    match r {
        Ok((value, next)) => Ok((value@, next as int)),
        Err(e) => Err(e),
    }
}

/// The step that a list of parameters read stands for.
pub open spec fn definitions_step(r: Result<(Vec<ParameterDefinition>, usize), SyntaxError>) -> Step<
    Seq<ParameterDefinitionView>,
> {
    match r {
        Ok((list, next)) => Ok((parameter_definitions_view(list@), next as int)),
        Err(e) => Err(e),
    }
}

/// A successful step has consumed at least one token, and none past the
/// last.
pub open spec fn advances<T>(r: Result<(T, usize), SyntaxError>, pos: usize, len: usize) -> bool {
    match r {
        Ok((_, next)) => pos < next <= len,
        Err(_) => true,
    }
}

/// A successful step has not moved backward, nor past the last token.
pub open spec fn stays<T>(r: Result<(T, usize), SyntaxError>, pos: usize, len: usize) -> bool {
    match r {
        Ok((_, next)) => pos <= next <= len,
        Err(_) => true,
    }
}

/// The binary operator that a token spells at a level of precedence.
fn operator_at(kind: TokenKind, level: usize) -> (op: Option<Binary>)
    ensures
        op == grammar::operator_at(kind, level as nat),
{
    if level == 0 && kind == TokenKind::Or {
        Some(Binary::Or)
    } else if level == 1 && kind == TokenKind::And {
        Some(Binary::And)
    } else if level == 2 && kind == TokenKind::Equal {
        Some(Binary::Op(Opcode::Equal))
    } else if level == 2 && kind == TokenKind::NotEqual {
        Some(Binary::Op(Opcode::NotEqual))
    } else if level == 3 && kind == TokenKind::Less {
        Some(Binary::Op(Opcode::Lt))
    } else if level == 3 && kind == TokenKind::LessEqual {
        Some(Binary::Op(Opcode::Lte))
    } else if level == 3 && kind == TokenKind::Greater {
        Some(Binary::Op(Opcode::Gt))
    } else if level == 3 && kind == TokenKind::GreaterEqual {
        Some(Binary::Op(Opcode::Gte))
    } else if level == 4 && kind == TokenKind::Plus {
        Some(Binary::Op(Opcode::Add))
    } else if level == 4 && kind == TokenKind::Minus {
        Some(Binary::Op(Opcode::Sub))
    } else if level == 5 && kind == TokenKind::Star {
        Some(Binary::Op(Opcode::Mul))
    } else if level == 5 && kind == TokenKind::Slash {
        Some(Binary::Op(Opcode::Div))
    } else if level == 5 && kind == TokenKind::Percent {
        Some(Binary::Op(Opcode::Rem))
    } else {
        None
    }
}

/// The application of a binary operator.
fn combine<'a>(op: Binary, lhs: Expr<'a>, rhs: Expr<'a>) -> (e: Expr<'a>)
    ensures
        e@ == grammar::combine(op, lhs@, rhs@),
{
    match op {
        Binary::Or => Expr::Or(Box::new(lhs), Box::new(rhs)),
        Binary::And => Expr::And(Box::new(lhs), Box::new(rhs)),
        Binary::Op(code) => Expr::Op(Box::new(lhs), code, Box::new(rhs)),
    }
}

/// The modifier that a token spells.
fn modifier_of(kind: TokenKind) -> (modifier: Option<Modifier>)
    ensures
        modifier == grammar::modifier_of(kind),
{
    if kind == TokenKind::Percent {
        Some(Modifier::Transparent)
    } else if kind == TokenKind::Hash {
        Some(Modifier::Highlight)
    } else if kind == TokenKind::Bang {
        Some(Modifier::ShowOnly)
    } else if kind == TokenKind::Star {
        Some(Modifier::Disable)
    } else {
        None
    }
}

/// Whether a token can name the module that a statement calls.
fn names_module(kind: TokenKind) -> (r: bool)
    ensures
        r == grammar::names_module(kind),
{
    kind == TokenKind::Identifier || kind == TokenKind::Let || kind == TokenKind::Echo || kind
        == TokenKind::Assert
}

impl<'a> Parser<'a> {
    /// The parser knows the length of its text, and cuts it by bytes only
    /// where bytes are characters.
    pub open spec fn well_formed(&self) -> bool {
        &&& self.length == self.content@.len()
        &&& self.ascii ==> self.content.is_ascii()
    }

    /// Splits a text into tokens, or gives the first reason why it cannot
    /// be split.
    pub fn new(content: &'a str) -> (r: Result<Parser<'a>, SyntaxError>)
        ensures
            match r {
                Ok(parser) => parser.well_formed() && parser.content == content
                    && crate::tokens::tokens_of(content@) == Ok::<Seq<Token>, SyntaxError>(
                    parser.tokens@,
                ),
                Err(e) => crate::tokens::tokens_of(content@) == Err::<Seq<Token>, SyntaxError>(e),
            },
    {
        let chars = to_chars(content);
        match tokenize(&chars) {
            Ok(tokens) => Ok(
                Parser { content, ascii: content.is_ascii(), length: chars.len(), tokens },
            ),
            Err(e) => Err(e),
        }
    }

    /// The token at `pos`; past the end of the list, the end of the text.
    fn token_at(&self, pos: usize) -> (token: Token)
        ensures
            token == grammar::token_at(self.tokens@, pos as int),
    {
        if pos < self.tokens.len() {
            self.tokens[pos]
        } else {
            Token { kind: TokenKind::End, start: 0, end: 0 }
        }
    }

    /// The kind of the token at `pos`.
    fn kind_at(&self, pos: usize) -> (kind: TokenKind)
        ensures
            kind == grammar::kind_at(self.tokens@, pos as int),
            kind != TokenKind::End ==> pos < self.tokens.len(),
    {
        self.token_at(pos).kind
    }

    /// The error for a token that cannot stand at `pos`.
    fn unexpected(&self, pos: usize) -> (e: SyntaxError)
        ensures
            e == grammar::unexpected(self.tokens@, pos as int),
    {
        let token = self.token_at(pos);
        if token.kind == TokenKind::End {
            SyntaxError::UnrecognizedEof { location: token.start }
        } else {
            SyntaxError::UnrecognizedToken { start: token.start, end: token.end }
        }
    }

    /// The position after the token at `pos`, which must be of the given kind.
    fn expect(&self, pos: usize, kind: TokenKind) -> (r: Result<usize, SyntaxError>)
        ensures
            match r {
                Ok(next) => grammar::expect(self.tokens@, pos as int, kind) == Ok::<
                    int,
                    SyntaxError,
                >(next as int) && next == pos + 1 && pos < self.tokens.len(),
                Err(e) => grammar::expect(self.tokens@, pos as int, kind) == Err::<
                    int,
                    SyntaxError,
                >(e),
            },
    {
        if self.kind_at(pos) == kind && kind != TokenKind::End {
            Ok(pos + 1)
        } else {
            Err(self.unexpected(pos))
        }
    }

    /// The characters `start..end` of the text; nothing where that is no range of
    /// the text.
    fn slice(&self, start: usize, end: usize) -> (s: &'a str)
        requires
            self.well_formed(),
        ensures
            s@ == grammar::lexeme(self.content@, start as int, end as int),
    {
        if start <= end && end <= self.length {
            if self.ascii {
                self.content.substring_ascii(start, end)
            } else {
                self.content.substring_char(start, end)
            }
        } else {
            self.nothing()
        }
    }

    /// The text without characters.
    fn nothing(&self) -> (s: &'a str)
        ensures
            s@ == Seq::<char>::empty(),
    {
        proof {
            reveal_strlit("");
        }
        let s: &'a str = "";
        assert(s@ =~= Seq::empty());
        s
    }

    /// The characters of the token at `pos`.
    fn word(&self, pos: usize) -> (s: &'a str)
        requires
            self.well_formed(),
        ensures
            s@ == grammar::word(self.tokens@, self.content@, pos as int),
    {
        let token = self.token_at(pos);
        self.slice(token.start, token.end)
    }

    /// The characters of the token at `pos` without the first and the last.
    fn quoted(&self, pos: usize) -> (s: &'a str)
        requires
            self.well_formed(),
        ensures
            s@ == grammar::quoted(self.tokens@, self.content@, pos as int),
    {
        let token = self.token_at(pos);
        if token.start < token.end {
            self.slice(token.start + 1, token.end - 1)
        } else {
            self.nothing()
        }
    }

    /// Reads an expression.
    fn expression(&self, pos: usize) -> (r: Result<(Expr<'a>, usize), SyntaxError>)
        requires
            self.well_formed(),
            pos <= self.tokens.len(),
        ensures
            expr_step(r) == grammar::expression(self.tokens@, self.content@, pos as int),
            advances(r, pos, self.tokens.len()),
        decreases self.tokens.len() - pos, 20nat,
    {
        let kind = self.kind_at(pos);
        if kind == TokenKind::Let {
            let (lets, next) = match self.let_clauses(pos) {
                Ok(step) => step,
                Err(e) => {
                    return Err(e);
                },
            };
            let (body, end) = match self.expression(next) {
                Ok(step) => step,
                Err(e) => {
                    return Err(e);
                },
            };
            Ok((Expr::Let(lets, Box::new(body)), end))
        } else if kind == TokenKind::Echo || kind == TokenKind::Assert {
            let (params, next) = match self.call_arguments(pos + 1) {
                Ok(step) => step,
                Err(e) => {
                    return Err(e);
                },
            };
            let (body, end) = match self.expression(next) {
                Ok(step) => step,
                Err(e) => {
                    return Err(e);
                },
            };
            if kind == TokenKind::Echo {
                Ok((Expr::Echo(params, Box::new(body)), end))
            } else {
                Ok((Expr::Assert(params, Box::new(body)), end))
            }
        } else {
            self.ternary(pos)
        }
    }

    /// Reads a conditional expression, or what stands for its condition.
    fn ternary(&self, pos: usize) -> (r: Result<(Expr<'a>, usize), SyntaxError>)
        requires
            self.well_formed(),
            pos <= self.tokens.len(),
        ensures
            expr_step(r) == grammar::ternary(self.tokens@, self.content@, pos as int),
            advances(r, pos, self.tokens.len()),
        decreases self.tokens.len() - pos, 19nat,
    {
        let (condition, next) = match self.binary(pos, 0) {
            Ok(step) => step,
            Err(e) => {
                return Err(e);
            },
        };
        if self.kind_at(next) == TokenKind::Question {
            let (if_true, colon) = match self.expression(next + 1) {
                Ok(step) => step,
                Err(e) => {
                    return Err(e);
                },
            };
            let after = match self.expect(colon, TokenKind::Colon) {
                Ok(after) => after,
                Err(e) => {
                    return Err(e);
                },
            };
            let (if_false, end) = match self.expression(after) {
                Ok(step) => step,
                Err(e) => {
                    return Err(e);
                },
            };
            Ok(
                (
                    Expr::Ternary {
                        condition: Box::new(condition),
                        if_true: Box::new(if_true),
                        if_false: Box::new(if_false),
                    },
                    end,
                ),
            )
        } else {
            Ok((condition, next))
        }
    }

    /// Reads the operands and operators of a level of precedence.
    fn binary(&self, pos: usize, level: usize) -> (r: Result<(Expr<'a>, usize), SyntaxError>)
        requires
            self.well_formed(),
            pos <= self.tokens.len(),
        ensures
            expr_step(r) == grammar::binary(
                self.tokens@,
                self.content@,
                pos as int,
                level as nat,
            ),
            advances(r, pos, self.tokens.len()),
        decreases self.tokens.len() - pos, grammar::binary_rank(level as nat),
    {
        if level >= 6 {
            return self.unary(pos);
        }
        let (first, start) = match self.binary(pos, level + 1) {
            Ok(step) => step,
            Err(e) => {
                return Err(e);
            },
        };
        let mut lhs = first;
        let mut at = start;
        loop
            invariant
                self.well_formed(),
                level < 6,
                pos < at <= self.tokens.len(),
                grammar::binary(self.tokens@, self.content@, pos as int, level as nat)
                    == grammar::binary_rest(
                    self.tokens@,
                    self.content@,
                    at as int,
                    level as nat,
                    lhs@,
                ),
            decreases self.tokens.len() - at,
        {
            match operator_at(self.kind_at(at), level) {
                None => {
                    return Ok((lhs, at));
                },
                Some(op) => {
                    let (rhs, next) = match self.binary(at + 1, level + 1) {
                        Ok(step) => step,
                        Err(e) => {
                            return Err(e);
                        },
                    };
                    lhs = combine(op, lhs, rhs);
                    at = next;
                },
            }
        }
    }

    /// Reads a unary expression with what is indexed or accessed after it.
    fn unary(&self, pos: usize) -> (r: Result<(Expr<'a>, usize), SyntaxError>)
        requires
            self.well_formed(),
            pos <= self.tokens.len(),
        ensures
            expr_step(r) == grammar::unary(self.tokens@, self.content@, pos as int),
            advances(r, pos, self.tokens.len()),
        decreases self.tokens.len() - pos, 11nat,
    {
        let kind = self.kind_at(pos);
        if kind == TokenKind::Minus || kind == TokenKind::Bang {
            let (inner, next) = match self.unary(pos + 1) {
                Ok(step) => step,
                Err(e) => {
                    return Err(e);
                },
            };
            if kind == TokenKind::Minus {
                return Ok((Expr::Negative(Box::new(inner)), next));
            } else {
                return Ok((Expr::Not(Box::new(inner)), next));
            }
        }
        let (first, start) = match self.primary(pos) {
            Ok(step) => step,
            Err(e) => {
                return Err(e);
            },
        };
        let mut base = first;
        let mut at = start;
        loop
            invariant
                self.well_formed(),
                pos < at <= self.tokens.len(),
                grammar::unary(self.tokens@, self.content@, pos as int) == grammar::postfix_rest(
                    self.tokens@,
                    self.content@,
                    at as int,
                    base@,
                ),
            decreases self.tokens.len() - at,
        {
            let kind = self.kind_at(at);
            if kind == TokenKind::LeftBracket {
                let (index, close) = match self.expression(at + 1) {
                    Ok(step) => step,
                    Err(e) => {
                        return Err(e);
                    },
                };
                let after = match self.expect(close, TokenKind::RightBracket) {
                    Ok(after) => after,
                    Err(e) => {
                        return Err(e);
                    },
                };
                base = Expr::array_access(base, index);
                at = after;
            } else if kind == TokenKind::Dot {
                if self.kind_at(at + 1) == TokenKind::Identifier {
                    let field = self.word(at + 1);
                    base = Expr::field_access(base, field);
                    at = at + 2;
                } else {
                    return Err(self.unexpected(at + 1));
                }
            } else {
                return Ok((base, at));
            }
        }
    }

    /// Reads a literal, a name, a call, or an expression in parentheses or brackets.
    fn primary(&self, pos: usize) -> (r: Result<(Expr<'a>, usize), SyntaxError>)
        requires
            self.well_formed(),
            pos <= self.tokens.len(),
        ensures
            expr_step(r) == grammar::primary(self.tokens@, self.content@, pos as int),
            advances(r, pos, self.tokens.len()),
        decreases self.tokens.len() - pos, 9nat,
    {
        let kind = self.kind_at(pos);
        if kind == TokenKind::True {
            Ok((Expr::Boolean(true), pos + 1))
        } else if kind == TokenKind::False {
            Ok((Expr::Boolean(false), pos + 1))
        } else if kind == TokenKind::Undef {
            Ok((Expr::Undef, pos + 1))
        } else if kind == TokenKind::Number {
            Ok((Expr::Number(self.word(pos)), pos + 1))
        } else if kind == TokenKind::Text {
            Ok((Expr::Text(self.quoted(pos)), pos + 1))
        } else if kind == TokenKind::Identifier {
            if self.kind_at(pos + 1) == TokenKind::LeftParen {
                let (parameters, next) = match self.call_arguments(pos + 1) {
                    Ok(step) => step,
                    Err(e) => {
                        return Err(e);
                    },
                };
                let call = FunctionCall { name: self.word(pos), parameters };
                proof {
                    assert(call@ == crate::ast::FunctionCallView {
                        name: call.name@,
                        parameters: parameter_values_view(call.parameters@),
                    });
                }
                Ok((Expr::Function(call), next))
            } else {
                Ok((Expr::Variable(self.word(pos)), pos + 1))
            }
        } else if kind == TokenKind::LeftParen {
            let (inner, close) = match self.expression(pos + 1) {
                Ok(step) => step,
                Err(e) => {
                    return Err(e);
                },
            };
            match self.expect(close, TokenKind::RightParen) {
                Ok(after) => Ok((inner, after)),
                Err(e) => Err(e),
            }
        } else if kind == TokenKind::LeftBracket {
            self.bracket(pos + 1)
        } else {
            Err(self.unexpected(pos))
        }
    }

    /// Reads what follows an opening bracket.
    fn bracket(&self, pos: usize) -> (r: Result<(Expr<'a>, usize), SyntaxError>)
        requires
            self.well_formed(),
            pos <= self.tokens.len(),
        ensures
            expr_step(r) == grammar::bracket(self.tokens@, self.content@, pos as int),
            advances(r, pos, self.tokens.len()),
        decreases self.tokens.len() - pos, 40nat,
    {
        let kind = self.kind_at(pos);
        if kind == TokenKind::RightBracket {
            let nothing: Vec<Expr<'a>> = Vec::new();
            proof {
                assert(exprs_view(nothing@) =~= Seq::empty());
            }
            Ok((Expr::Vector(nothing), pos + 1))
        } else if kind == TokenKind::For {
            let lets: Vec<Let<'a>> = Vec::new();
            proof {
                assert(lets_view(lets@) =~= Seq::empty());
            }
            self.comprehension(pos, lets)
        } else if kind == TokenKind::Let {
            let (lets, next) = match self.let_clauses(pos) {
                Ok(step) => step,
                Err(e) => {
                    return Err(e);
                },
            };
            if self.kind_at(next) == TokenKind::For {
                self.comprehension(next, lets)
            } else {
                let (body, after) = match self.expression(next) {
                    Ok(step) => step,
                    Err(e) => {
                        return Err(e);
                    },
                };
                self.bracket_tail(after, Expr::Let(lets, Box::new(body)))
            }
        } else {
            let (first, next) = match self.expression(pos) {
                Ok(step) => step,
                Err(e) => {
                    return Err(e);
                },
            };
            self.bracket_tail(next, first)
        }
    }

    /// Reads a list comprehension from its `for` on.
    fn comprehension(&self, pos: usize, lets: Vec<Let<'a>>) -> (r: Result<
        (Expr<'a>, usize),
        SyntaxError,
    >)
        requires
            self.well_formed(),
            pos <= self.tokens.len(),
        ensures
            expr_step(r) == grammar::comprehension(
                self.tokens@,
                self.content@,
                pos as int,
                lets_view(lets@),
            ),
            advances(r, pos, self.tokens.len()),
        decreases self.tokens.len() - pos, 39nat,
    {
        let open = match self.expect(pos, TokenKind::For) {
            Ok(open) => open,
            Err(e) => {
                return Err(e);
            },
        };
        let (variables, next) = match self.call_arguments(open) {
            Ok(step) => step,
            Err(e) => {
                return Err(e);
            },
        };
        let (body, close) = match self.expression(next) {
            Ok(step) => step,
            Err(e) => {
                return Err(e);
            },
        };
        match self.expect(close, TokenKind::RightBracket) {
            Ok(after) => Ok(
                (Expr::ListComprehension { lets, variables, body: Box::new(body) }, after),
            ),
            Err(e) => Err(e),
        }
    }

    /// Reads what follows the first expression after an opening bracket.
    fn bracket_tail(&self, pos: usize, first: Expr<'a>) -> (r: Result<
        (Expr<'a>, usize),
        SyntaxError,
    >)
        requires
            self.well_formed(),
            pos <= self.tokens.len(),
        ensures
            expr_step(r) == grammar::bracket_tail(
                self.tokens@,
                self.content@,
                pos as int,
                first@,
            ),
            advances(r, pos, self.tokens.len()),
        decreases self.tokens.len() - pos, 0nat,
    {
        let kind = self.kind_at(pos);
        if kind == TokenKind::RightBracket {
            let mut list: Vec<Expr<'a>> = Vec::new();
            let ghost single = first@;
            list.push(first);
            proof {
                assert(exprs_view(list@) =~= seq![single]);
            }
            Ok((Expr::Vector(list), pos + 1))
        } else if kind == TokenKind::Comma {
            let mut list: Vec<Expr<'a>> = Vec::new();
            let ghost single = first@;
            list.push(first);
            proof {
                assert(exprs_view(list@) =~= seq![single]);
            }
            self.elements(pos + 1, list)
        } else if kind == TokenKind::Colon {
            let (second, next) = match self.expression(pos + 1) {
                Ok(step) => step,
                Err(e) => {
                    return Err(e);
                },
            };
            if self.kind_at(next) == TokenKind::Colon {
                let (third, close) = match self.expression(next + 1) {
                    Ok(step) => step,
                    Err(e) => {
                        return Err(e);
                    },
                };
                match self.expect(close, TokenKind::RightBracket) {
                    Ok(after) => Ok((Expr::range(first, Some(second), third), after)),
                    Err(e) => Err(e),
                }
            } else {
                match self.expect(next, TokenKind::RightBracket) {
                    Ok(after) => Ok((Expr::range(first, None, second), after)),
                    Err(e) => Err(e),
                }
            }
        } else {
            Err(self.unexpected(pos))
        }
    }

    /// Reads the elements of a vector after a comma, up to the closing bracket.
    fn elements(&self, pos: usize, first: Vec<Expr<'a>>) -> (r: Result<
        (Expr<'a>, usize),
        SyntaxError,
    >)
        requires
            self.well_formed(),
            pos <= self.tokens.len(),
        ensures
            expr_step(r) == grammar::elements(
                self.tokens@,
                self.content@,
                pos as int,
                exprs_view(first@),
            ),
            advances(r, pos, self.tokens.len()),
        decreases self.tokens.len() - pos, 41nat,
    {
        let ghost given = exprs_view(first@);
        let mut list = first;
        let mut at = pos;
        loop
            invariant
                self.well_formed(),
                pos <= at <= self.tokens.len(),
                given == exprs_view(first@),
                grammar::elements(self.tokens@, self.content@, pos as int, given)
                    == grammar::elements(
                    self.tokens@,
                    self.content@,
                    at as int,
                    exprs_view(list@),
                ),
            decreases self.tokens.len() - at,
        {
            if self.kind_at(at) == TokenKind::RightBracket {
                return Ok((Expr::Vector(list), at + 1));
            }
            let (value, next) = match self.expression(at) {
                Ok(step) => step,
                Err(e) => {
                    return Err(e);
                },
            };
            proof {
                assert(exprs_view(list@.push(value)) =~= exprs_view(list@).push(value@));
            }
            list.push(value);
            let kind = self.kind_at(next);
            if kind == TokenKind::Comma {
                at = next + 1;
            } else if kind == TokenKind::RightBracket {
                return Ok((Expr::Vector(list), next + 1));
            } else {
                return Err(self.unexpected(next));
            }
        }
    }

    /// Reads the `let` clauses that start at `pos`.
    fn let_clauses(&self, pos: usize) -> (r: Result<(Vec<Let<'a>>, usize), SyntaxError>)
        requires
            self.well_formed(),
            pos <= self.tokens.len(),
        ensures
            lets_step(r) == grammar::let_clauses(
                self.tokens@,
                self.content@,
                pos as int,
                Seq::empty(),
            ),
            stays(r, pos, self.tokens.len()),
            grammar::kind_at(self.tokens@, pos as int) == TokenKind::Let ==> advances(
                r,
                pos,
                self.tokens.len(),
            ),
        decreases self.tokens.len() - pos, 3nat,
    {
        let mut list: Vec<Let<'a>> = Vec::new();
        let mut at = pos;
        proof {
            assert(lets_view(list@) =~= Seq::empty());
        }
        loop
            invariant
                self.well_formed(),
                pos <= at <= self.tokens.len(),
                grammar::let_clauses(self.tokens@, self.content@, pos as int, Seq::empty())
                    == grammar::let_clauses(
                    self.tokens@,
                    self.content@,
                    at as int,
                    lets_view(list@),
                ),
            decreases self.tokens.len() - at,
        {
            if self.kind_at(at) != TokenKind::Let {
                return Ok((list, at));
            }
            let (vars, next) = match self.call_arguments(at + 1) {
                Ok(step) => step,
                Err(e) => {
                    return Err(e);
                },
            };
            let clause = Let { vars };
            proof {
                assert(lets_view(list@.push(clause)) =~= lets_view(list@).push(clause@));
            }
            list.push(clause);
            at = next;
        }
    }

    /// Reads a list of arguments in parentheses.
    fn call_arguments(&self, pos: usize) -> (r: Result<
        (Vec<ParameterValue<'a>>, usize),
        SyntaxError,
    >)
        requires
            self.well_formed(),
            pos <= self.tokens.len(),
        ensures
            values_step(r) == grammar::call_arguments(self.tokens@, self.content@, pos as int),
            advances(r, pos, self.tokens.len()),
        decreases self.tokens.len() - pos, 31nat,
    {
        let open = match self.expect(pos, TokenKind::LeftParen) {
            Ok(open) => open,
            Err(e) => {
                return Err(e);
            },
        };
        let (list, close) = match self.arguments(open) {
            Ok(step) => step,
            Err(e) => {
                return Err(e);
            },
        };
        match self.expect(close, TokenKind::RightParen) {
            Ok(after) => Ok((list, after)),
            Err(e) => Err(e),
        }
    }

    /// Reads the arguments up to the closing parenthesis.
    fn arguments(&self, pos: usize) -> (r: Result<(Vec<ParameterValue<'a>>, usize), SyntaxError>)
        requires
            self.well_formed(),
            pos <= self.tokens.len(),
        ensures
            values_step(r) == grammar::arguments(
                self.tokens@,
                self.content@,
                pos as int,
                Seq::empty(),
            ),
            stays(r, pos, self.tokens.len()),
        decreases self.tokens.len() - pos, 30nat,
    {
        let mut list: Vec<ParameterValue<'a>> = Vec::new();
        let mut at = pos;
        proof {
            assert(parameter_values_view(list@) =~= Seq::empty());
        }
        loop
            invariant
                self.well_formed(),
                pos <= at <= self.tokens.len(),
                grammar::arguments(self.tokens@, self.content@, pos as int, Seq::empty())
                    == grammar::arguments(
                    self.tokens@,
                    self.content@,
                    at as int,
                    parameter_values_view(list@),
                ),
            decreases self.tokens.len() - at,
        {
            if self.kind_at(at) == TokenKind::RightParen {
                return Ok((list, at));
            }
            let (value, next) = match self.argument(at) {
                Ok(step) => step,
                Err(e) => {
                    return Err(e);
                },
            };
            proof {
                assert(parameter_values_view(list@.push(value)) =~= parameter_values_view(
                    list@,
                ).push(value@));
            }
            list.push(value);
            if self.kind_at(next) == TokenKind::Comma {
                at = next + 1;
            } else {
                return Ok((list, next));
            }
        }
    }

    /// Reads one argument, with its name if it has one.
    fn argument(&self, pos: usize) -> (r: Result<(ParameterValue<'a>, usize), SyntaxError>)
        requires
            self.well_formed(),
            pos <= self.tokens.len(),
        ensures
            value_step(r) == grammar::argument(self.tokens@, self.content@, pos as int),
            advances(r, pos, self.tokens.len()),
        decreases self.tokens.len() - pos, 25nat,
    {
        if self.kind_at(pos) == TokenKind::Identifier && self.kind_at(pos + 1)
            == TokenKind::Assign {
            let (value, next) = match self.expression(pos + 2) {
                Ok(step) => step,
                Err(e) => {
                    return Err(e);
                },
            };
            Ok((ParameterValue { name: Some(self.word(pos)), value }, next))
        } else {
            let (value, next) = match self.expression(pos) {
                Ok(step) => step,
                Err(e) => {
                    return Err(e);
                },
            };
            Ok((ParameterValue { name: None, value }, next))
        }
    }

    /// Reads the list of parameters of a definition, in parentheses.
    fn parameter_list(&self, pos: usize) -> (r: Result<
        (Vec<ParameterDefinition<'a>>, usize),
        SyntaxError,
    >)
        requires
            self.well_formed(),
            pos <= self.tokens.len(),
        ensures
            definitions_step(r) == grammar::parameter_list(
                self.tokens@,
                self.content@,
                pos as int,
            ),
            advances(r, pos, self.tokens.len()),
    {
        let open = match self.expect(pos, TokenKind::LeftParen) {
            Ok(open) => open,
            Err(e) => {
                return Err(e);
            },
        };
        let mut list: Vec<ParameterDefinition<'a>> = Vec::new();
        let mut at = open;
        proof {
            assert(parameter_definitions_view(list@) =~= Seq::empty());
        }
        loop
            invariant
                self.well_formed(),
                open <= at <= self.tokens.len(),
                open == pos + 1,
                grammar::parameters(self.tokens@, self.content@, open as int, Seq::empty())
                    == grammar::parameters(
                    self.tokens@,
                    self.content@,
                    at as int,
                    parameter_definitions_view(list@),
                ),
                grammar::parameter_list(self.tokens@, self.content@, pos as int) == match grammar::parameters(
                    self.tokens@,
                    self.content@,
                    open as int,
                    Seq::empty(),
                ) {
                    Err(e) => Err(e),
                    Ok((list, close)) => match grammar::expect(
                        self.tokens@,
                        close,
                        TokenKind::RightParen,
                    ) {
                        Err(e) => Err(e),
                        Ok(after) => Ok((list, after)),
                    },
                },
            decreases self.tokens.len() - at,
        {
            if self.kind_at(at) == TokenKind::RightParen {
                return Ok((list, at + 1));
            }
            let (value, next) = match self.parameter(at) {
                Ok(step) => step,
                Err(e) => {
                    return Err(e);
                },
            };
            proof {
                assert(parameter_definitions_view(list@.push(value))
                    =~= parameter_definitions_view(list@).push(value@));
            }
            list.push(value);
            if self.kind_at(next) == TokenKind::Comma {
                at = next + 1;
            } else {
                return match self.expect(next, TokenKind::RightParen) {
                    Ok(after) => Ok((list, after)),
                    Err(e) => Err(e),
                };
            }
        }
    }

    /// Reads one parameter, with its default value if it has one.
    fn parameter(&self, pos: usize) -> (r: Result<(ParameterDefinition<'a>, usize), SyntaxError>)
        requires
            self.well_formed(),
            pos <= self.tokens.len(),
        ensures
            definition_step(r) == grammar::parameter(self.tokens@, self.content@, pos as int),
            advances(r, pos, self.tokens.len()),
    {
        if self.kind_at(pos) != TokenKind::Identifier {
            Err(self.unexpected(pos))
        } else if self.kind_at(pos + 1) == TokenKind::Assign {
            let (value, next) = match self.expression(pos + 2) {
                Ok(step) => step,
                Err(e) => {
                    return Err(e);
                },
            };
            Ok((ParameterDefinition { name: self.word(pos), default_value: Some(value) }, next))
        } else {
            Ok((ParameterDefinition { name: self.word(pos), default_value: None }, pos + 1))
        }
    }

    /// Reads a statement.
    fn statement(&self, pos: usize) -> (r: Result<(Statement<'a>, usize), SyntaxError>)
        requires
            self.well_formed(),
            pos <= self.tokens.len(),
        ensures
            statement_step(r) == grammar::statement(self.tokens@, self.content@, pos as int),
            advances(r, pos, self.tokens.len()),
        decreases self.tokens.len() - pos, 50nat,
    {
        let kind = self.kind_at(pos);
        if kind == TokenKind::Semicolon {
            Ok((Statement::NoOp, pos + 1))
        } else if kind == TokenKind::LeftBrace {
            match self.block_items(pos + 1) {
                Ok((items, after)) => Ok((Statement::StatementList(items), after)),
                Err(e) => Err(e),
            }
        } else if kind == TokenKind::Module {
            if self.kind_at(pos + 1) != TokenKind::Identifier {
                return Err(self.unexpected(pos + 1));
            }
            let (args, next) = match self.parameter_list(pos + 2) {
                Ok(step) => step,
                Err(e) => {
                    return Err(e);
                },
            };
            match self.statement(next) {
                Ok((body, end)) => Ok(
                    (
                        Statement::ModuleDefinition {
                            name: self.word(pos + 1),
                            args,
                            body: Box::new(body),
                        },
                        end,
                    ),
                ),
                Err(e) => Err(e),
            }
        } else if kind == TokenKind::Function {
            self.function_definition(pos)
        } else if kind == TokenKind::Include {
            if self.kind_at(pos + 1) == TokenKind::Path {
                Ok((Statement::Include(self.quoted(pos + 1)), pos + 2))
            } else {
                Err(self.unexpected(pos + 1))
            }
        } else if kind == TokenKind::Use {
            if self.kind_at(pos + 1) == TokenKind::Path {
                Ok((Statement::Use(self.quoted(pos + 1)), pos + 2))
            } else {
                Err(self.unexpected(pos + 1))
            }
        } else if kind == TokenKind::If {
            self.conditional(pos)
        } else if kind == TokenKind::Identifier && self.kind_at(pos + 1) == TokenKind::Assign {
            let (value, semicolon) = match self.expression(pos + 2) {
                Ok(step) => step,
                Err(e) => {
                    return Err(e);
                },
            };
            match self.expect(semicolon, TokenKind::Semicolon) {
                Ok(end) => Ok((Statement::VariableDeclaration(self.word(pos), value), end)),
                Err(e) => Err(e),
            }
        } else {
            match modifier_of(kind) {
                Some(modifier) => self.action(pos + 1, Some(modifier)),
                None => self.action(pos, None),
            }
        }
    }

    /// Reads a function definition.
    fn function_definition(&self, pos: usize) -> (r: Result<(Statement<'a>, usize), SyntaxError>)
        requires
            self.well_formed(),
            pos <= self.tokens.len(),
        ensures
            statement_step(r) == grammar::function_definition(
                self.tokens@,
                self.content@,
                pos as int,
            ),
            advances(r, pos, self.tokens.len()),
    {
        if self.kind_at(pos) != TokenKind::Function {
            return Err(self.unexpected(pos));
        }
        if self.kind_at(pos + 1) != TokenKind::Identifier {
            return Err(self.unexpected(pos + 1));
        }
        let (params, next) = match self.parameter_list(pos + 2) {
            Ok(step) => step,
            Err(e) => {
                return Err(e);
            },
        };
        let start = match self.expect(next, TokenKind::Assign) {
            Ok(start) => start,
            Err(e) => {
                return Err(e);
            },
        };
        let (body, semicolon) = match self.expression(start) {
            Ok(step) => step,
            Err(e) => {
                return Err(e);
            },
        };
        match self.expect(semicolon, TokenKind::Semicolon) {
            Ok(end) => Ok((Statement::FunctionDefinition(self.word(pos + 1), params, body), end)),
            Err(e) => Err(e),
        }
    }

    /// Reads an `if` with its `else`, if one follows.
    fn conditional(&self, pos: usize) -> (r: Result<(Statement<'a>, usize), SyntaxError>)
        requires
            self.well_formed(),
            pos <= self.tokens.len(),
        ensures
            statement_step(r) == grammar::conditional(self.tokens@, self.content@, pos as int),
            advances(r, pos, self.tokens.len()),
        decreases self.tokens.len() - pos, 49nat,
    {
        let open = match self.expect(pos, TokenKind::If) {
            Ok(open) => open,
            Err(e) => {
                return Err(e);
            },
        };
        let start = match self.expect(open, TokenKind::LeftParen) {
            Ok(start) => start,
            Err(e) => {
                return Err(e);
            },
        };
        let (condition, close) = match self.expression(start) {
            Ok(step) => step,
            Err(e) => {
                return Err(e);
            },
        };
        let then = match self.expect(close, TokenKind::RightParen) {
            Ok(then) => then,
            Err(e) => {
                return Err(e);
            },
        };
        let (if_true, next) = match self.body(then) {
            Ok(step) => step,
            Err(e) => {
                return Err(e);
            },
        };
        if self.kind_at(next) == TokenKind::Else {
            match self.statement(next + 1) {
                Ok((if_false, end)) => Ok(
                    (Statement::make_if_else(condition, if_true, if_false), end),
                ),
                Err(e) => Err(e),
            }
        } else {
            Ok((Statement::make_if(condition, if_true), next))
        }
    }

    /// Reads a call of a module, or a `for`.
    fn action(&self, pos: usize, modifier: Option<Modifier>) -> (r: Result<
        (Statement<'a>, usize),
        SyntaxError,
    >)
        requires
            self.well_formed(),
            pos <= self.tokens.len(),
        ensures
            statement_step(r) == grammar::action(
                self.tokens@,
                self.content@,
                pos as int,
                modifier,
            ),
            advances(r, pos, self.tokens.len()),
        decreases self.tokens.len() - pos, 45nat,
    {
        let kind = self.kind_at(pos);
        if kind == TokenKind::For || names_module(kind) {
            let (params, next) = match self.call_arguments(pos + 1) {
                Ok(step) => step,
                Err(e) => {
                    return Err(e);
                },
            };
            let (children, end) = match self.body(next) {
                Ok(step) => step,
                Err(e) => {
                    return Err(e);
                },
            };
            if kind == TokenKind::For {
                Ok((Statement::For { variables: params, body: children, modifier }, end))
            } else {
                let call = ModuleCall { function: self.word(pos), params, children, modifier };
                proof {
                    assert(call@ == crate::ast::ModuleCallView {
                        function: call.function@,
                        params: parameter_values_view(call.params@),
                        children: statements_view(call.children@),
                        modifier: call.modifier,
                    });
                }
                Ok((Statement::ModuleCall(call), end))
            }
        } else {
            Err(self.unexpected(pos))
        }
    }

    /// Reads what a call or a branch holds.
    fn body(&self, pos: usize) -> (r: Result<(Vec<Statement<'a>>, usize), SyntaxError>)
        requires
            self.well_formed(),
            pos <= self.tokens.len(),
        ensures
            statements_step(r) == grammar::body(self.tokens@, self.content@, pos as int),
            advances(r, pos, self.tokens.len()),
        decreases self.tokens.len() - pos, 55nat,
    {
        let kind = self.kind_at(pos);
        if kind == TokenKind::Semicolon {
            let nothing: Vec<Statement<'a>> = Vec::new();
            proof {
                assert(statements_view(nothing@) =~= Seq::empty());
            }
            Ok((nothing, pos + 1))
        } else if kind == TokenKind::LeftBrace {
            self.block_items(pos + 1)
        } else {
            match self.statement(pos) {
                Ok((single, next)) => {
                    let mut list: Vec<Statement<'a>> = Vec::new();
                    let ghost view = single@;
                    list.push(single);
                    proof {
                        assert(statements_view(list@) =~= seq![view]);
                    }
                    Ok((list, next))
                },
                Err(e) => Err(e),
            }
        }
    }

    /// Reads the statements of a block up to the closing brace.
    fn block_items(&self, pos: usize) -> (r: Result<(Vec<Statement<'a>>, usize), SyntaxError>)
        requires
            self.well_formed(),
            pos <= self.tokens.len(),
        ensures
            statements_step(r) == grammar::block_items(
                self.tokens@,
                self.content@,
                pos as int,
                Seq::empty(),
            ),
            advances(r, pos, self.tokens.len()),
        decreases self.tokens.len() - pos, 60nat,
    {
        let mut list: Vec<Statement<'a>> = Vec::new();
        let mut at = pos;
        proof {
            assert(statements_view(list@) =~= Seq::empty());
        }
        loop
            invariant
                self.well_formed(),
                pos <= at <= self.tokens.len(),
                grammar::block_items(self.tokens@, self.content@, pos as int, Seq::empty())
                    == grammar::block_items(
                    self.tokens@,
                    self.content@,
                    at as int,
                    statements_view(list@),
                ),
            decreases self.tokens.len() - at,
        {
            if self.kind_at(at) == TokenKind::RightBrace {
                return Ok((list, at + 1));
            }
            let (item, next) = match self.statement(at) {
                Ok(step) => step,
                Err(e) => {
                    return Err(e);
                },
            };
            proof {
                assert(statements_view(list@.push(item)) =~= statements_view(list@).push(item@));
            }
            list.push(item);
            at = next;
        }
    }

    /// The statements of the whole text.
    pub fn document(&self) -> (r: Result<Vec<Statement<'a>>, SyntaxError>)
        requires
            self.well_formed(),
        ensures
            match r {
                Ok(list) => grammar::document_items(
                    self.tokens@,
                    self.content@,
                    0,
                    Seq::empty(),
                ) == Ok::<Seq<StatementView>, SyntaxError>(statements_view(list@)),
                Err(e) => grammar::document_items(self.tokens@, self.content@, 0, Seq::empty())
                    == Err::<Seq<StatementView>, SyntaxError>(e),
            },
    {
        let mut list: Vec<Statement<'a>> = Vec::new();
        let mut at: usize = 0;
        proof {
            assert(statements_view(list@) =~= Seq::empty());
        }
        loop
            invariant
                self.well_formed(),
                at <= self.tokens.len(),
                grammar::document_items(self.tokens@, self.content@, 0, Seq::empty())
                    == grammar::document_items(
                    self.tokens@,
                    self.content@,
                    at as int,
                    statements_view(list@),
                ),
            decreases self.tokens.len() - at,
        {
            if self.kind_at(at) == TokenKind::End {
                return Ok(list);
            }
            let (item, next) = match self.statement(at) {
                Ok(step) => step,
                Err(e) => {
                    return Err(e);
                },
            };
            proof {
                assert(statements_view(list@.push(item)) =~= statements_view(list@).push(item@));
            }
            list.push(item);
            at = next;
        }
    }
}

} // verus!
