//! What name resolution computes, as a function of the raw tree and of the
//! chain of environments in which the tree stands.
//!
//! A chain lists the bindings of the enclosing blocks, outermost first; its
//! last entry belongs to the block in which a reference stands. Resolution
//! never fails: a reference that cannot be bound becomes the undefined value
//! and leaves a diagnostic.

use crate::ast;
use crate::context::{lookup, Bindings, EnvironmentView, Kind};
use crate::diagnostic::DiagnosticView;
use crate::parser::{axis_of, ExprView, FunctionView, ModuleView, ParameterValueView, ScopeView};
use vstd::prelude::*;

verus! {

/// A resolved value, with the diagnostics that resolving it emitted, in
/// order.
pub struct Resolved<T> {
    pub value: T,
    pub diagnostics: Seq<DiagnosticView>,
}

/// A value resolved without diagnostics.
pub open spec fn clean<T>(value: T) -> Resolved<T> {
    Resolved { value, diagnostics: Seq::empty() }
}

/// The undefined value that stands for a reference that could not be bound.
pub open spec fn unresolved(diagnostic: DiagnosticView) -> Resolved<ExprView> {
    Resolved { value: ExprView::Undef, diagnostics: seq![diagnostic] }
}

/// The names of a list of named or unnamed values, in order.
pub open spec fn value_names(values: Seq<ast::ParameterValueView>) -> Seq<Option<Seq<char>>> {
    Seq::new(values.len(), |i: int| values[i].name)
}

/// The names that the clauses of a `let` introduce, in order.
pub open spec fn let_names(lets: Seq<ast::LetView>) -> Seq<Option<Seq<char>>>
    decreases lets.len(),
{
    if lets.len() == 0 {
        Seq::empty()
    } else {
        let_names(lets.drop_last()) + value_names(lets.last().vars)
    }
}

/// The names of the parameters of a definition, in order.
pub open spec fn parameter_names(params: Seq<ast::ParameterDefinitionView>) -> Seq<
    Option<Seq<char>>,
> {
    Seq::new(params.len(), |i: int| Some(params[i].name))
}

/// The resolved form of an expression that stands in the innermost
/// environment of `chain`.
///
/// - A variable or a function call becomes the address that [`lookup`] gives
///   its name, or the undefined value and a diagnostic where there is none.
///   The arguments of a call that cannot be bound are not resolved.
/// - A field access keeps its axis, or becomes the undefined value and a
///   diagnostic where the field is no axis; its parent is then not resolved.
/// - The values of a `let` are resolved in `chain`; its body is resolved in a
///   child environment that holds one variable slot per value, in order.
/// - The body of a list comprehension is resolved in a child environment
///   that holds one variable slot per `let` value, then one per loop
///   variable. The ranges of the loop variables are resolved in `chain`. The
///   `let` values are not part of the output and are not resolved.
/// - Every other expression is resolved part by part, from left to right.
pub open spec fn resolve_expr(e: ast::ExprView, chain: Seq<Bindings>) -> Resolved<ExprView>
    decreases e,
{
    match e {
        ast::ExprView::Undef => clean(ExprView::Undef),
        ast::ExprView::Boolean(b) => clean(ExprView::Boolean(b)),
        ast::ExprView::Number(n) => clean(ExprView::Number(n)),
        ast::ExprView::Text(t) => clean(ExprView::Text(t)),
        ast::ExprView::Vector(values) => {
            let v = resolve_exprs(values, chain);
            Resolved { value: ExprView::Vector(v.value), diagnostics: v.diagnostics }
        },
        ast::ExprView::Variable(name) => match lookup(chain, Kind::Variable, name) {
            Some(address) => clean(ExprView::Variable(address)),
            None => unresolved(DiagnosticView::UnresolvedVariable(name)),
        },
        ast::ExprView::Function(call) => match lookup(chain, Kind::Function, call.name) {
            Some(address) => {
                let p = resolve_parameter_values(call.parameters, chain);
                Resolved { value: ExprView::Function(address, p.value), diagnostics: p.diagnostics }
            },
            None => unresolved(DiagnosticView::UnresolvedFunction(call.name)),
        },
        ast::ExprView::Negative(inner) => {
            let r = resolve_expr(*inner, chain);
            Resolved { value: ExprView::Negative(Box::new(r.value)), diagnostics: r.diagnostics }
        },
        ast::ExprView::Not(inner) => {
            let r = resolve_expr(*inner, chain);
            Resolved { value: ExprView::Not(Box::new(r.value)), diagnostics: r.diagnostics }
        },
        ast::ExprView::Echo(params, inner) => {
            let p = resolve_parameter_values(params, chain);
            let r = resolve_expr(*inner, chain);
            Resolved {
                value: ExprView::Echo(p.value, Box::new(r.value)),
                diagnostics: p.diagnostics + r.diagnostics,
            }
        },
        ast::ExprView::Assert(params, inner) => {
            let p = resolve_parameter_values(params, chain);
            let r = resolve_expr(*inner, chain);
            Resolved {
                value: ExprView::Assert(p.value, Box::new(r.value)),
                diagnostics: p.diagnostics + r.diagnostics,
            }
        },
        ast::ExprView::Let(lets, inner) => {
            let p = resolve_lets(lets, chain);
            let child = EnvironmentView::of_names(let_names(lets));
            let r = resolve_expr(*inner, chain.push(child.bindings));
            Resolved {
                value: ExprView::Let(p.value, Box::new(r.value)),
                diagnostics: p.diagnostics + r.diagnostics,
            }
        },
        ast::ExprView::ListComprehension { lets, variables, body } => {
            let v = resolve_parameter_values(variables, chain);
            let child = EnvironmentView::of_names(let_names(lets) + value_names(variables));
            let r = resolve_expr(*body, chain.push(child.bindings));
            Resolved {
                value: ExprView::ListComprehension {
                    lets: Seq::empty(),
                    variables: v.value,
                    body: Box::new(r.value),
                },
                diagnostics: v.diagnostics + r.diagnostics,
            }
        },
        ast::ExprView::Op(a, op, b) => {
            let l = resolve_expr(*a, chain);
            let r = resolve_expr(*b, chain);
            Resolved {
                value: ExprView::Op(Box::new(l.value), op, Box::new(r.value)),
                diagnostics: l.diagnostics + r.diagnostics,
            }
        },
        ast::ExprView::Or(a, b) => {
            let l = resolve_expr(*a, chain);
            let r = resolve_expr(*b, chain);
            Resolved {
                value: ExprView::Or(Box::new(l.value), Box::new(r.value)),
                diagnostics: l.diagnostics + r.diagnostics,
            }
        },
        ast::ExprView::And(a, b) => {
            let l = resolve_expr(*a, chain);
            let r = resolve_expr(*b, chain);
            Resolved {
                value: ExprView::And(Box::new(l.value), Box::new(r.value)),
                diagnostics: l.diagnostics + r.diagnostics,
            }
        },
        ast::ExprView::FieldAccess { parent, field } => match axis_of(field) {
            Some(axis) => {
                let p = resolve_expr(*parent, chain);
                Resolved {
                    value: ExprView::FieldAccess { parent: Box::new(p.value), field: axis },
                    diagnostics: p.diagnostics,
                }
            },
            None => unresolved(DiagnosticView::InvalidFieldAccess(field)),
        },
        ast::ExprView::ArrayAccess { array, index } => {
            let a = resolve_expr(*array, chain);
            let i = resolve_expr(*index, chain);
            Resolved {
                value: ExprView::ArrayAccess { array: Box::new(a.value), index: Box::new(i.value) },
                diagnostics: a.diagnostics + i.diagnostics,
            }
        },
        ast::ExprView::Ternary { condition, if_true, if_false } => {
            let c = resolve_expr(*condition, chain);
            let t = resolve_expr(*if_true, chain);
            let f = resolve_expr(*if_false, chain);
            Resolved {
                value: ExprView::Ternary {
                    condition: Box::new(c.value),
                    if_true: Box::new(t.value),
                    if_false: Box::new(f.value),
                },
                diagnostics: c.diagnostics + t.diagnostics + f.diagnostics,
            }
        },
        ast::ExprView::Range { start, end, increment } => {
            let s = resolve_expr(*start, chain);
            let e = resolve_expr(*end, chain);
            match increment {
                Some(step) => {
                    let i = resolve_expr(*step, chain);
                    Resolved {
                        value: ExprView::Range {
                            start: Box::new(s.value),
                            end: Box::new(e.value),
                            increment: Some(Box::new(i.value)),
                        },
                        diagnostics: s.diagnostics + e.diagnostics + i.diagnostics,
                    }
                },
                None => Resolved {
                    value: ExprView::Range {
                        start: Box::new(s.value),
                        end: Box::new(e.value),
                        increment: None,
                    },
                    diagnostics: s.diagnostics + e.diagnostics,
                },
            }
        },
    }
}

/// Resolves the expressions of a list, in order, in the same chain.
pub open spec fn resolve_exprs(es: Seq<ast::ExprView>, chain: Seq<Bindings>) -> Resolved<
    Seq<ExprView>,
>
    decreases es,
{
    if es.len() == 0 {
        clean(Seq::empty())
    } else {
        let init = resolve_exprs(es.drop_last(), chain);
        let last = resolve_expr(es.last(), chain);
        Resolved {
            value: init.value.push(last.value),
            diagnostics: init.diagnostics + last.diagnostics,
        }
    }
}

/// Resolves the value of a parameter and keeps its name.
pub open spec fn resolve_parameter_value(
    p: ast::ParameterValueView,
    chain: Seq<Bindings>,
) -> Resolved<ParameterValueView>
    decreases p,
{
    let r = resolve_expr(p.value, chain);
    Resolved {
        value: ParameterValueView { name: p.name, value: r.value },
        diagnostics: r.diagnostics,
    }
}

/// Resolves the parameters of a list, in order, in the same chain.
pub open spec fn resolve_parameter_values(
    ps: Seq<ast::ParameterValueView>,
    chain: Seq<Bindings>,
) -> Resolved<Seq<ParameterValueView>>
    decreases ps,
{
    if ps.len() == 0 {
        clean(Seq::empty())
    } else {
        let init = resolve_parameter_values(ps.drop_last(), chain);
        let last = resolve_parameter_value(ps.last(), chain);
        Resolved {
            value: init.value.push(last.value),
            diagnostics: init.diagnostics + last.diagnostics,
        }
    }
}

/// Resolves the values of the clauses of a `let`, in order, in the same
/// chain, into one list.
pub open spec fn resolve_lets(lets: Seq<ast::LetView>, chain: Seq<Bindings>) -> Resolved<
    Seq<ParameterValueView>,
>
    decreases lets,
{
    if lets.len() == 0 {
        clean(Seq::empty())
    } else {
        let init = resolve_lets(lets.drop_last(), chain);
        let last = resolve_parameter_values(lets.last().vars, chain);
        Resolved {
            value: init.value + last.value,
            diagnostics: init.diagnostics + last.diagnostics,
        }
    }
}

/// Resolves the default values of the parameters of a definition, in
/// order, in the chain of the block that holds the definition.
pub open spec fn resolve_defaults(
    params: Seq<ast::ParameterDefinitionView>,
    chain: Seq<Bindings>,
) -> Resolved<Seq<Option<ExprView>>>
    decreases params.len(),
{
    if params.len() == 0 {
        clean(Seq::empty())
    } else {
        let init = resolve_defaults(params.drop_last(), chain);
        match params.last().default_value {
            Some(e) => {
                let last = resolve_expr(e, chain);
                Resolved {
                    value: init.value.push(Some(last.value)),
                    diagnostics: init.diagnostics + last.diagnostics,
                }
            },
            None => Resolved { value: init.value.push(None), diagnostics: init.diagnostics },
        }
    }
}

/// The environment of a block after the statement `s` has been resolved in
/// it, where `env` is the environment before and `outer` lists the bindings
/// of the enclosing blocks.
///
/// - A variable declaration resolves its initializer in the environment as
///   it is before the declaration, then appends a slot.
/// - A function or module definition first binds its name in `env`. Its
///   default values are resolved there. Its body is resolved in a child
///   environment that starts with one caller-supplied variable slot per
///   parameter.
/// - A block, the branches of an `if` and the body of a `for` declare into
///   `env` itself; neither the condition nor the loop variables are resolved.
/// - An include, a use, a module call, a comment and the empty statement
///   leave `env` as it is.
pub open spec fn resolve_statement(
    s: ast::StatementView,
    outer: Seq<Bindings>,
    env: EnvironmentView,
) -> Resolved<EnvironmentView>
    decreases s,
{
    match s {
        ast::StatementView::VariableDeclaration(name, e) => {
            let v = resolve_expr(e, outer.push(env.bindings));
            Resolved { value: env.add_variable(Some(name), v.value), diagnostics: v.diagnostics }
        },
        ast::StatementView::FunctionDefinition(name, params, body) => {
            let declared = env.add_function(name);
            let chain = outer.push(declared.bindings);
            let d = resolve_defaults(params, chain);
            let child = EnvironmentView::of_names(parameter_names(params));
            let b = resolve_expr(body, chain.push(child.bindings));
            let function = FunctionView {
                default_values: d.value,
                scope: child.scope,
                body: b.value,
            };
            Resolved {
                value: declared.finish_function(function),
                diagnostics: d.diagnostics + b.diagnostics,
            }
        },
        ast::StatementView::ModuleDefinition { name, args, body } => {
            let declared = env.add_module(name);
            let chain = outer.push(declared.bindings);
            let d = resolve_defaults(args, chain);
            let child = EnvironmentView::of_names(parameter_names(args));
            let b = resolve_statement(*body, chain, child);
            let module = ModuleView { default_values: d.value, body: b.value.scope };
            Resolved {
                value: declared.finish_module(module),
                diagnostics: d.diagnostics + b.diagnostics,
            }
        },
        ast::StatementView::StatementList(list) => resolve_statements(list, outer, env),
        ast::StatementView::If { if_true, if_false, .. } => {
            let t = resolve_statements(if_true, outer, env);
            let f = resolve_statements(if_false, outer, t.value);
            Resolved { value: f.value, diagnostics: t.diagnostics + f.diagnostics }
        },
        ast::StatementView::For { body, .. } => resolve_statements(
            body,
            outer,
            env,
        ),
        ast::StatementView::NoOp => clean(env),
        ast::StatementView::Include(_) => clean(env),
        ast::StatementView::Use(_) => clean(env),
        ast::StatementView::ModuleCall(_) => clean(env),
        ast::StatementView::Comment(_) => clean(env),
    }
}

/// Resolves the statements of a list, in order, each in the environment
/// that the one before it left.
pub open spec fn resolve_statements(
    ss: Seq<ast::StatementView>,
    outer: Seq<Bindings>,
    env: EnvironmentView,
) -> Resolved<EnvironmentView>
    decreases ss,
{
    if ss.len() == 0 {
        clean(env)
    } else {
        let init = resolve_statements(ss.drop_last(), outer, env);
        let last = resolve_statement(ss.last(), outer, init.value);
        Resolved { value: last.value, diagnostics: init.diagnostics + last.diagnostics }
    }
}

/// The scope of a whole document, with the diagnostics of the pass: its
/// statements are resolved in order in an environment without parent.
pub open spec fn resolve_document(statements: Seq<ast::StatementView>) -> Resolved<ScopeView> {
    let r = resolve_statements(statements, Seq::empty(), EnvironmentView::empty());
    Resolved { value: r.value.scope, diagnostics: r.diagnostics }
}

} // verus!
