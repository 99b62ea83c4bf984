use rscad::ast;
use rscad::context::{find_id, Context, Kind};
use rscad::diagnostic::Diagnostic;
use rscad::parser::{
    parse, parse_expr, parse_statement, Axis, Expr, Function, Id, Module, ParameterValue, Scope,
};

fn resolve(text: &str) -> (Scope, Vec<Diagnostic>) {
    let tree = rscad::parse(text).unwrap();
    let mut diagnostics = Vec::new();
    let scope = parse(&tree, &mut diagnostics);
    (scope, diagnostics)
}

fn clean(text: &str) -> Scope {
    let (scope, diagnostics) = resolve(text);
    assert_eq!(diagnostics, vec![]);
    scope
}

fn number(text: &str) -> Expr {
    Expr::Number(text.to_string())
}

fn slot(depth: usize, id: usize) -> Expr {
    Expr::Variable(Id { depth, id })
}

fn unnamed(value: Expr) -> ParameterValue {
    ParameterValue { name: None, value }
}

fn named(name: &str, value: Expr) -> ParameterValue {
    ParameterValue {
        name: Some(name.to_string()),
        value,
    }
}

fn parameters(count: usize) -> Scope {
    let mut scope = Scope::new();
    for _ in 0..count {
        scope.variables.push(Expr::Extern);
    }
    scope
}

#[test]
fn an_empty_document_has_an_empty_scope() {
    assert_eq!(clean(""), Scope::new());
    assert_eq!(Scope::default(), Scope::new());
    assert_eq!(
        Scope::new(),
        Scope {
            variables: vec![],
            functions: vec![],
            modules: vec![],
            items: vec![],
        }
    );
    let mut diagnostics = vec![Diagnostic::UnresolvedVariable("kept".to_string())];
    assert_eq!(parse(&[], &mut diagnostics), Scope::new());
    assert_eq!(
        diagnostics,
        vec![Diagnostic::UnresolvedVariable("kept".to_string())]
    );
}

#[test]
fn the_second_declaration_shadows_the_first() {
    let scope = clean("a=1; a=2; b=a;");
    assert_eq!(scope.variables, vec![number("1"), number("2"), slot(0, 1)]);
}

#[test]
fn a_reference_sees_the_declaration_before_it() {
    let scope = clean("a=1; b=a; a=2; c=a;");
    assert_eq!(
        scope.variables,
        vec![number("1"), slot(0, 0), number("2"), slot(0, 2)]
    );
}

#[test]
fn an_initializer_does_not_see_its_own_slot() {
    let (scope, diagnostics) = resolve("a = a;");
    assert_eq!(scope.variables, vec![Expr::Undef]);
    assert_eq!(
        diagnostics,
        vec![Diagnostic::UnresolvedVariable("a".to_string())]
    );
    let scope = clean("a = 1; a = a;");
    assert_eq!(scope.variables, vec![number("1"), slot(0, 0)]);
}

#[test]
fn depth_counts_the_scopes_between_reference_and_declaration() {
    let scope = clean("a = 1; function f(x) = a;");
    assert_eq!(scope.functions.len(), 1);
    assert_eq!(scope.functions[0].body, slot(1, 0));
    assert_eq!(scope.functions[0].scope, parameters(1));

    let scope = clean("a = 1; function f(x) = let(y = 2) [a, x, y];");
    assert_eq!(
        scope.functions[0].body,
        Expr::Let(
            vec![named("y", number("2"))],
            Box::new(Expr::Vector(vec![slot(2, 0), slot(1, 0), slot(0, 0)]))
        )
    );

    let scope = clean("a = 1; module m() { module n() { b = a; } }");
    assert_eq!(scope.modules[0].body.modules[0].body.variables, vec![slot(2, 0)]);
}

#[test]
fn a_parameter_shadows_an_outer_variable() {
    let scope = clean("x = 1; function f(x) = x;");
    assert_eq!(scope.functions[0].body, slot(0, 0));
    let scope = clean("function f(x, y, x) = x;");
    assert_eq!(scope.functions[0].body, slot(0, 2));
    assert_eq!(scope.functions[0].scope, parameters(3));
}

#[test]
fn a_function_can_call_itself() {
    let scope = clean("function f(n) = f(n - 1);");
    assert_eq!(
        scope.functions,
        vec![Function {
            default_values: vec![None],
            scope: parameters(1),
            body: Expr::Function(
                Id { depth: 1, id: 0 },
                vec![unnamed(Expr::Op(
                    Box::new(slot(0, 0)),
                    ast::Opcode::Sub,
                    Box::new(number("1"))
                ))]
            ),
        }]
    );
    let scope = clean("function g() = 1; function f(n) = let(m = n) f(g());");
    assert_eq!(
        scope.functions[1].body,
        Expr::Let(
            vec![named("m", slot(0, 0))],
            Box::new(Expr::Function(
                Id { depth: 2, id: 1 },
                vec![unnamed(Expr::Function(Id { depth: 2, id: 0 }, vec![]))]
            ))
        )
    );
}

#[test]
fn a_function_is_not_seen_before_its_definition() {
    let (scope, diagnostics) = resolve("a = f(missing); function f() = 1; b = f();");
    assert_eq!(
        scope.variables,
        vec![
            Expr::Undef,
            Expr::Function(Id { depth: 0, id: 0 }, vec![])
        ]
    );
    // The arguments of a call that cannot be bound are not looked at.
    assert_eq!(
        diagnostics,
        vec![Diagnostic::UnresolvedFunction("f".to_string())]
    );
}

#[test]
fn variables_and_functions_are_numbered_apart() {
    let scope = clean("f = 1; function f() = f; a = f();");
    assert_eq!(scope.functions[0].body, slot(1, 0));
    assert_eq!(
        scope.variables,
        vec![
            number("1"),
            Expr::Function(Id { depth: 0, id: 0 }, vec![])
        ]
    );
}

#[test]
fn default_values_resolve_in_the_enclosing_scope() {
    let scope = clean("y = 2; function f(x = y) = x;");
    assert_eq!(scope.functions[0].default_values, vec![Some(slot(0, 0))]);
    assert_eq!(scope.functions[0].body, slot(0, 0));

    let (scope, diagnostics) = resolve("function g(a, b = a) = b;");
    assert_eq!(
        scope.functions[0].default_values,
        vec![None, Some(Expr::Undef)]
    );
    assert_eq!(scope.functions[0].body, slot(0, 1));
    assert_eq!(
        diagnostics,
        vec![Diagnostic::UnresolvedVariable("a".to_string())]
    );

    let scope = clean("a = 7; module m(a, b = a) { c = a; }");
    assert_eq!(
        scope.modules,
        vec![Module {
            default_values: vec![None, Some(slot(0, 0))],
            body: Scope {
                variables: vec![Expr::Extern, Expr::Extern, slot(0, 0)],
                functions: vec![],
                modules: vec![],
                items: vec![],
            },
        }]
    );

    let scope = clean("function f(n = f(1)) = n;");
    assert_eq!(
        scope.functions[0].default_values,
        vec![Some(Expr::Function(
            Id { depth: 0, id: 0 },
            vec![unnamed(number("1"))]
        ))]
    );
}

#[test]
fn an_unresolved_variable_becomes_undefined() {
    let (scope, diagnostics) = resolve("b = undeclared_name;");
    assert_eq!(scope.variables, vec![Expr::Undef]);
    assert_eq!(
        diagnostics,
        vec![Diagnostic::UnresolvedVariable(
            "undeclared_name".to_string()
        )]
    );
    assert_eq!(scope.functions, vec![]);
    assert_eq!(scope.modules, vec![]);
    assert_eq!(scope.items, vec![]);
}

#[test]
fn resolution_goes_on_after_a_diagnostic() {
    let (scope, diagnostics) = resolve("a = [x, 1, g(2), y.w] ; b = a;");
    assert_eq!(
        scope.variables,
        vec![
            Expr::Vector(vec![Expr::Undef, number("1"), Expr::Undef, Expr::Undef]),
            slot(0, 0),
        ]
    );
    assert_eq!(
        diagnostics,
        vec![
            Diagnostic::UnresolvedVariable("x".to_string()),
            Diagnostic::UnresolvedFunction("g".to_string()),
            Diagnostic::InvalidFieldAccess("w".to_string()),
        ]
    );
}

#[test]
fn only_the_axes_are_fields() {
    let (scope, diagnostics) = resolve("a = [1,2,3]; x = a.x; y = a.y; z = a.z; w = a.w;");
    let access = |field| Expr::FieldAccess {
        parent: Box::new(slot(0, 0)),
        field,
    };
    assert_eq!(scope.variables[1], access(Axis::X));
    assert_eq!(scope.variables[2], access(Axis::Y));
    assert_eq!(scope.variables[3], access(Axis::Z));
    assert_eq!(scope.variables[4], Expr::Undef);
    assert_eq!(
        diagnostics,
        vec![Diagnostic::InvalidFieldAccess("w".to_string())]
    );
    // The parent of an invalid access is not looked at.
    let (_, diagnostics) = resolve("w = missing.xy;");
    assert_eq!(
        diagnostics,
        vec![Diagnostic::InvalidFieldAccess("xy".to_string())]
    );
}

#[test]
fn axis_labels() {
    assert_eq!(Axis::from_str("x"), Some(Axis::X));
    assert_eq!(Axis::from_str("y"), Some(Axis::Y));
    assert_eq!(Axis::from_str("z"), Some(Axis::Z));
    assert_eq!(Axis::from_str("w"), None);
    assert_eq!(Axis::from_str(""), None);
    assert_eq!(Axis::from_str("X"), None);
    assert_eq!(Axis::from_str("xx"), None);
    assert_eq!(Axis::from_str("\u{e9}"), None);
}

#[test]
fn resolving_twice_gives_the_same_scope() {
    let text = "a = 1; function f(x = a) = f(x) + b; module m(y) { c = y; d = q.w; } a = f(a);";
    let (first_scope, first_diagnostics) = resolve(text);
    let (second_scope, second_diagnostics) = resolve(text);
    assert_eq!(first_scope, second_scope);
    assert_eq!(first_diagnostics, second_diagnostics);
    assert_eq!(
        first_diagnostics,
        vec![
            Diagnostic::UnresolvedVariable("b".to_string()),
            Diagnostic::InvalidFieldAccess("w".to_string()),
        ]
    );
    let tree = rscad::parse(text).unwrap();
    let mut diagnostics = Vec::new();
    let again = parse(&tree, &mut diagnostics);
    let once_more = parse(&tree, &mut diagnostics);
    assert_eq!(again, once_more);
    assert_eq!(again, first_scope);
    assert_eq!(diagnostics.len(), 4);
}

#[test]
fn let_values_resolve_outside_and_bind_inside() {
    let scope = clean("a = 1; b = let(a = a, c = 2) a + c;");
    assert_eq!(
        scope.variables[1],
        Expr::Let(
            vec![named("a", slot(0, 0)), named("c", number("2"))],
            Box::new(Expr::Op(
                Box::new(slot(0, 0)),
                ast::Opcode::Add,
                Box::new(slot(0, 1))
            ))
        )
    );
    // A value does not see the names of the clause it stands in.
    let (scope, diagnostics) = resolve("b = let(c = 1, d = c) d;");
    assert_eq!(
        scope.variables[0],
        Expr::Let(
            vec![named("c", number("1")), named("d", Expr::Undef)],
            Box::new(slot(0, 1))
        )
    );
    assert_eq!(
        diagnostics,
        vec![Diagnostic::UnresolvedVariable("c".to_string())]
    );
    // A value without a name takes a slot all the same.
    let scope = clean("b = let(1, c = 2) c;");
    assert_eq!(
        scope.variables[0],
        Expr::Let(
            vec![unnamed(number("1")), named("c", number("2"))],
            Box::new(slot(0, 1))
        )
    );
    // The names of a `let` end with its body.
    let (scope, diagnostics) = resolve("b = [let(c = 1) c, c];");
    assert_eq!(
        scope.variables[0],
        Expr::Vector(vec![
            Expr::Let(vec![named("c", number("1"))], Box::new(slot(0, 0))),
            Expr::Undef,
        ])
    );
    assert_eq!(
        diagnostics,
        vec![Diagnostic::UnresolvedVariable("c".to_string())]
    );
}

#[test]
fn a_list_comprehension_binds_lets_then_loop_variables() {
    let (scope, diagnostics) = resolve("m = 3; a = [let(n = 5) for(i = [1:m]) i * n + m];");
    assert_eq!(
        scope.variables[1],
        Expr::ListComprehension {
            lets: vec![],
            variables: vec![named(
                "i",
                Expr::Range {
                    start: Box::new(number("1")),
                    end: Box::new(slot(0, 0)),
                    increment: None,
                }
            )],
            body: Box::new(Expr::Op(
                Box::new(Expr::Op(
                    Box::new(slot(0, 1)),
                    ast::Opcode::Mul,
                    Box::new(slot(0, 0))
                )),
                ast::Opcode::Add,
                Box::new(slot(1, 0))
            )),
        }
    );
    assert_eq!(diagnostics, vec![]);
    // The ranges of the loop variables are resolved outside.
    let (_, diagnostics) = resolve("a = [let(n = 5) for(i = [1:n]) i];");
    assert_eq!(
        diagnostics,
        vec![Diagnostic::UnresolvedVariable("n".to_string())]
    );
    // The values of the `let` clauses are not resolved at all.
    let (_, diagnostics) = resolve("a = [let(n = missing) for(i = [1:2]) n];");
    assert_eq!(diagnostics, vec![]);
}

#[test]
fn every_expression_is_resolved_part_by_part() {
    let (scope, diagnostics) = resolve(
        r#"v = 1;
           a = -v; b = !v; c = v ? p : q; d = [v : r : s]; e = v[t];
           f = echo("m", k = u) v; g = assert(w) v; h = v && x || y; i = "text"; j = undef;
           l = true; n = [v : z];"#,
    );
    assert_eq!(
        scope.variables,
        vec![
            number("1"),
            Expr::Negative(Box::new(slot(0, 0))),
            Expr::Not(Box::new(slot(0, 0))),
            Expr::Ternary {
                condition: Box::new(slot(0, 0)),
                if_true: Box::new(Expr::Undef),
                if_false: Box::new(Expr::Undef),
            },
            Expr::Range {
                start: Box::new(slot(0, 0)),
                end: Box::new(Expr::Undef),
                increment: Some(Box::new(Expr::Undef)),
            },
            Expr::ArrayAccess {
                array: Box::new(slot(0, 0)),
                index: Box::new(Expr::Undef),
            },
            Expr::Echo(
                vec![
                    unnamed(Expr::Text("m".to_string())),
                    named("k", Expr::Undef)
                ],
                Box::new(slot(0, 0))
            ),
            Expr::Assert(vec![unnamed(Expr::Undef)], Box::new(slot(0, 0))),
            Expr::Or(
                Box::new(Expr::And(Box::new(slot(0, 0)), Box::new(Expr::Undef))),
                Box::new(Expr::Undef)
            ),
            Expr::Text("text".to_string()),
            Expr::Undef,
            Expr::Boolean(true),
            Expr::Range {
                start: Box::new(slot(0, 0)),
                end: Box::new(Expr::Undef),
                increment: None,
            },
        ]
    );
    let names: Vec<Diagnostic> = ["p", "q", "s", "r", "t", "u", "w", "x", "y", "z"]
        .iter()
        .map(|name| Diagnostic::UnresolvedVariable(name.to_string()))
        .collect();
    assert_eq!(diagnostics, names);
}

#[test]
fn blocks_and_control_statements_share_the_scope() {
    let scope = clean("{ a = 1; } if (q) { b = a; } else c = 2; for (i = [0:1]) d = c; e = d;");
    assert_eq!(
        scope.variables,
        vec![number("1"), slot(0, 0), number("2"), slot(0, 2), slot(0, 3)]
    );
}

#[test]
fn conditions_calls_and_includes_bind_nothing() {
    let scope = clean(
        "include <a.scad> use <b.scad> ; cube(missing); if (missing) ; for (i = missing) ; \
         translate(missing) { a = 1; }",
    );
    assert_eq!(scope, Scope::new());
}

#[test]
fn a_module_holds_what_its_body_declares() {
    let (scope, diagnostics) = resolve(
        "module m(r) { h = r; function area() = r * h; module inner() { k = h; } m(); }
         h = 1;",
    );
    assert_eq!(diagnostics, vec![]);
    assert_eq!(scope.variables, vec![number("1")]);
    assert_eq!(scope.modules.len(), 1);
    let body = &scope.modules[0].body;
    assert_eq!(body.variables, vec![Expr::Extern, slot(0, 0)]);
    assert_eq!(
        body.functions[0].body,
        Expr::Op(
            Box::new(slot(1, 0)),
            ast::Opcode::Mul,
            Box::new(slot(1, 1))
        )
    );
    assert_eq!(body.modules[0].body.variables, vec![slot(1, 1)]);
    assert_eq!(body.items, vec![]);
}

#[test]
fn the_chain_finds_the_nearest_binding() {
    let mut context = Context::root();
    assert_eq!(context.find_var("a"), None);
    context.add_variable(Some("a"), Expr::Undef);
    context.add_variable(None, Expr::Undef);
    context.add_variable(Some("b"), Expr::Undef);
    context.add_function("a");
    context.add_module("a");
    context.add_module("b");
    assert_eq!(context.find_var("a"), Some(Id { depth: 0, id: 0 }));
    assert_eq!(context.find_var("b"), Some(Id { depth: 0, id: 2 }));
    assert_eq!(context.find_function("a"), Some(Id { depth: 0, id: 0 }));
    assert_eq!(context.find_function("b"), None);
    // A module whose definition has not been stored yet keeps its slot.
    assert_eq!(context.find_module("b"), Some(Id { depth: 0, id: 0 }));

    context.enter_child();
    context.add_variable(Some("b"), Expr::Extern);
    assert_eq!(context.find_var("a"), Some(Id { depth: 1, id: 0 }));
    assert_eq!(context.find_var("b"), Some(Id { depth: 0, id: 0 }));
    context.enter_child();
    assert_eq!(
        find_id("a", &context, Kind::Variable),
        Some(Id { depth: 2, id: 0 })
    );
    assert_eq!(
        find_id("b", &context, Kind::Variable),
        Some(Id { depth: 1, id: 0 })
    );
    assert_eq!(
        find_id("a", &context, Kind::Function),
        Some(Id { depth: 2, id: 0 })
    );
    assert_eq!(find_id("c", &context, Kind::Variable), None);

    assert_eq!(context.leave_child(), Scope::new());
    let child = context.leave_child();
    assert_eq!(child.variables, vec![Expr::Extern]);
    assert_eq!(context.find_var("b"), Some(Id { depth: 0, id: 2 }));
    context.finish_function(Function {
        default_values: vec![],
        scope: Scope::new(),
        body: Expr::Undef,
    });
    context.finish_module(Module {
        default_values: vec![],
        body: child,
    });
    let scope = context.into_scope();
    assert_eq!(scope.variables.len(), 3);
    assert_eq!(scope.functions.len(), 1);
    assert_eq!(scope.modules.len(), 1);
}

#[test]
fn expressions_and_statements_resolve_in_a_given_context() {
    let mut context = Context::root();
    let mut diagnostics = Vec::new();
    context.add_variable(Some("a"), Expr::Boolean(true));
    let resolved = parse_expr(
        &ast::Expr::Op(
            Box::new(ast::Expr::Variable("a")),
            ast::Opcode::Lt,
            Box::new(ast::Expr::Variable("b")),
        ),
        &mut context,
        &mut diagnostics,
    );
    assert_eq!(
        resolved,
        Expr::Op(
            Box::new(slot(0, 0)),
            ast::Opcode::Lt,
            Box::new(Expr::Undef)
        )
    );
    parse_statement(
        &ast::Statement::VariableDeclaration("b", ast::Expr::Variable("a")),
        &mut context,
        &mut diagnostics,
    );
    parse_statement(
        &ast::Statement::Comment("b is there now"),
        &mut context,
        &mut diagnostics,
    );
    assert_eq!(context.find_var("b"), Some(Id { depth: 0, id: 1 }));
    assert_eq!(
        diagnostics,
        vec![Diagnostic::UnresolvedVariable("b".to_string())]
    );
    assert_eq!(
        context.into_scope().variables,
        vec![Expr::Boolean(true), slot(0, 0)]
    );
}

#[test]
fn a_declaration_returns_its_slot() {
    let mut context = Context::root();
    assert_eq!(context.add_variable(Some("a"), Expr::Undef), 0);
    assert_eq!(context.add_variable(None, Expr::Undef), 1);
    assert_eq!(context.add_variable(Some("a"), Expr::Undef), 2);
    assert_eq!(context.add_function("f"), 0);
    assert_eq!(context.add_module("m"), 0);
    context.finish_module(Module {
        default_values: vec![],
        body: Scope::new(),
    });
    assert_eq!(context.add_module("m"), 1);
    assert_eq!(context.find_module("m"), Some(Id { depth: 0, id: 1 }));
    assert_eq!(context.find_var("a"), Some(Id { depth: 0, id: 2 }));
}

#[test]
fn a_clone_equals_what_it_was_cloned_from() {
    let text = r#"include <a.scad>
        a = [1, -b, !c, "t", undef, f(x = 1), d ? e : g, [0 : 2 : 8], h.x, i[0], j && k || l];
        function f(x, y = 2) = let(z = x) echo(z) assert(z) [for (w = [0:1]) w];
        module m(r = 1) { if (r) cube(r); else { #sphere(r); } for (i = [0:1]) ; /* c */ }
        "#;
    let tree = rscad::parse(text).unwrap();
    assert_eq!(tree.clone(), tree);
    let mut diagnostics = Vec::new();
    let scope = parse(&tree, &mut diagnostics);
    assert_eq!(scope.clone(), scope);
    assert_eq!(scope.functions[0].clone(), scope.functions[0]);
    assert_eq!(scope.modules[0].clone(), scope.modules[0]);
    assert_eq!(diagnostics.clone(), diagnostics);
    assert_eq!(diagnostics.len(), 11);
}

#[test]
fn diagnostics_read_as_warnings() {
    assert_eq!(
        Diagnostic::UnresolvedVariable("a".to_string()).message(),
        "Could not find variable `a`"
    );
    assert_eq!(
        Diagnostic::UnresolvedFunction("f".to_string()).message(),
        "Could not find function `f`"
    );
    assert_eq!(
        Diagnostic::InvalidFieldAccess("w".to_string()).message(),
        "Unrecognized field access `w`"
    );
    assert_eq!(
        Diagnostic::UnresolvedVariable(String::new()).message(),
        "Could not find variable ``"
    );
}
