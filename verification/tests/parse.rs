use rscad::ast;
use rscad::parse;
use rscad::tokens::SyntaxError;

fn number<'a>(text: &'a str) -> ast::Expr<'a> {
    ast::Expr::Number(text)
}

fn variable<'a>(name: &'a str) -> ast::Expr<'a> {
    ast::Expr::Variable(name)
}

fn unnamed<'a>(value: ast::Expr<'a>) -> ast::ParameterValue<'a> {
    ast::ParameterValue { name: None, value }
}

fn named<'a>(name: &'a str, value: ast::Expr<'a>) -> ast::ParameterValue<'a> {
    ast::ParameterValue {
        name: Some(name),
        value,
    }
}

fn op<'a>(a: ast::Expr<'a>, code: ast::Opcode, b: ast::Expr<'a>) -> ast::Expr<'a> {
    ast::Expr::Op(Box::new(a), code, Box::new(b))
}

fn call<'a>(
    function: &'a str,
    params: Vec<ast::ParameterValue<'a>>,
    children: Vec<ast::Statement<'a>>,
) -> ast::Statement<'a> {
    ast::Statement::ModuleCall(ast::ModuleCall {
        function,
        params,
        children,
        modifier: None,
    })
}

fn cube<'a>() -> ast::Statement<'a> {
    call(
        "cube",
        vec![unnamed(ast::Expr::Vector(vec![
            number("1"),
            number("2"),
            number("3"),
        ]))],
        vec![],
    )
}

fn declaration<'a>(text: &'a str) -> ast::Expr<'a> {
    let mut statements = parse(text).unwrap();
    assert_eq!(statements.len(), 1);
    match statements.pop().unwrap() {
        ast::Statement::VariableDeclaration(_, value) => value,
        other => panic!("not a declaration: {:?}", other),
    }
}

#[test]
fn fail_on_bad_modifiers() {
    assert!(
        parse("% { cube([1,2,3]); }").is_err(),
        "cannot apply modifier to a list of items",
    );

    assert!(
        parse("% a = 0;").is_err(),
        "cannot apply modifier to a variable assignment"
    );

    assert!(
        parse("% module foo() { }").is_err(),
        "cannot apply modifier to a module definition",
    );

    assert!(
        parse("% ;").is_err(),
        "cannot apply modifier to no-op statement"
    );
}

#[test]
fn parse_modifiers() {
    assert_eq!(
        parse("%cube([1,2,3]);").unwrap(),
        vec![ast::Statement::ModuleCall(ast::ModuleCall {
            function: "cube",
            params: vec![unnamed(ast::Expr::Vector(vec![
                number("1"),
                number("2"),
                number("3"),
            ]))],
            children: vec![],
            modifier: Some(ast::Modifier::Transparent),
        })],
    );
}

#[test]
fn parse_module_call() {
    assert_eq!(parse("cube([1,2,3]);").unwrap(), vec![cube()],);
}

#[test]
fn parse_module_child() {
    assert_eq!(
        parse(
            r#"
            translate([1,2,3]) cube([4,5,6]);
            "#
        )
        .unwrap(),
        vec![call(
            "translate",
            vec![unnamed(ast::Expr::Vector(vec![
                number("1"),
                number("2"),
                number("3"),
            ]))],
            vec![call(
                "cube",
                vec![unnamed(ast::Expr::Vector(vec![
                    number("4"),
                    number("5"),
                    number("6"),
                ]))],
                vec![],
            )],
        )],
    );
}

#[test]
fn parse_module_definition() {
    assert_eq!(
        parse(
            r#"
            module foo() {
                cube([1,2,3]);
            }
            "#,
        )
        .unwrap(),
        vec![ast::Statement::ModuleDefinition {
            name: "foo",
            args: vec![],
            body: Box::new(ast::Statement::StatementList(vec![cube()])),
        }],
    );
}

#[test]
fn parse_empty() {
    assert_eq!(parse("").unwrap(), vec![],);
}

#[test]
fn parse_comments() {
    assert_eq!(
        parse(
            r#"
            // First comment

            /* Second comment */

            /* No /* nested comments */

            /* Multi-line
             * Comment */

            /*
            // Easy-to-toggle comment
            // */
            "#
        )
        .unwrap(),
        vec![],
    );
}

#[test]
fn parse_list_comprehension() {
    assert_eq!(
        parse(
            r#"
            a = [let(n=5) for(i=[1:n]) i*i];
            "#
        )
        .unwrap(),
        vec![ast::Statement::VariableDeclaration(
            "a",
            ast::Expr::ListComprehension {
                lets: vec![ast::Let {
                    vars: vec![ast::ParameterValue {
                        name: Some("n"),
                        value: number("5"),
                    }],
                }],
                variables: vec![ast::ParameterValue {
                    name: Some("i"),
                    value: ast::Expr::Range {
                        start: Box::new(number("1")),
                        end: Box::new(ast::Expr::Variable("n")),
                        increment: None,
                    },
                }],
                body: Box::new(ast::Expr::Op(
                    Box::new(ast::Expr::Variable("i")),
                    ast::Opcode::Mul,
                    Box::new(ast::Expr::Variable("i")),
                )),
            }
        )],
    );
}

#[test]
fn fail_on_nested_comments() {
    assert!(parse(" /*  This /* nested */ comment should fail. */ ").is_err());
}

#[test]
fn parse_ternary() {
    assert_eq!(
        parse("a = 1 > 2 ? 1 + 2 : 3;").unwrap(),
        vec![ast::Statement::VariableDeclaration(
            "a",
            ast::Expr::Ternary {
                condition: Box::new(ast::Expr::Op(
                    Box::new(number("1")),
                    ast::Opcode::Gt,
                    Box::new(number("2")),
                )),
                if_true: Box::new(ast::Expr::Op(
                    Box::new(number("1")),
                    ast::Opcode::Add,
                    Box::new(number("2")),
                )),
                if_false: Box::new(number("3")),
            }
        )],
    );
}

#[test]
fn parse_array() {
    assert_eq!(
        parse(
            r#"
            a = [1,2,3];
            b = a[0];
            "#,
        )
        .unwrap(),
        vec![
            ast::Statement::VariableDeclaration(
                "a",
                ast::Expr::Vector(vec![number("1"), number("2"), number("3"),]),
            ),
            ast::Statement::VariableDeclaration(
                "b",
                ast::Expr::ArrayAccess {
                    array: Box::new(ast::Expr::Variable("a")),
                    index: Box::new(number("0")),
                },
            )
        ]
    );
}

#[test]
fn parse_field_access() {
    assert_eq!(
        parse(
            r#"
            a = [1,2,3];
            b = a.x;
            "#
        )
        .unwrap(),
        vec![
            ast::Statement::VariableDeclaration(
                "a",
                ast::Expr::Vector(vec![number("1"), number("2"), number("3"),]),
            ),
            ast::Statement::VariableDeclaration(
                "b",
                ast::Expr::FieldAccess {
                    parent: Box::new(ast::Expr::Variable("a")),
                    field: "x",
                },
            )
        ]
    );
}

#[test]
fn parse_boolean() {
    assert_eq!(
        parse(
            r#"
            a = true || !(false && true);
            "#
        )
        .unwrap(),
        vec![ast::Statement::VariableDeclaration(
            "a",
            ast::Expr::Or(
                Box::new(ast::Expr::Boolean(true)),
                Box::new(ast::Expr::Not(Box::new(ast::Expr::And(
                    Box::new(ast::Expr::Boolean(false)),
                    Box::new(ast::Expr::Boolean(true)),
                )))),
            ),
        )],
    );
}

#[test]
fn parse_translate_child() {
    assert_eq!(
        parse(
            r#"
                translate([1,2,3]) {
                    a = 5;
                    { cube([a,a,a]); }
                }
            "#
        )
        .unwrap(),
        vec![call(
            "translate",
            vec![unnamed(ast::Expr::Vector(vec![
                number("1"),
                number("2"),
                number("3"),
            ]))],
            vec![
                ast::Statement::VariableDeclaration("a", number("5")),
                ast::Statement::StatementList(vec![call(
                    "cube",
                    vec![unnamed(ast::Expr::Vector(vec![
                        ast::Expr::Variable("a"),
                        ast::Expr::Variable("a"),
                        ast::Expr::Variable("a"),
                    ]))],
                    vec![],
                )]),
            ],
        )],
    );
}

#[test]
fn number_literals_keep_their_text() {
    assert_eq!(declaration("a = 1.5e-3;"), number("1.5e-3"));
    assert_eq!(declaration("a = .5;"), number(".5"));
    assert_eq!(declaration("a = 10.;"), number("10."));
    assert_eq!(declaration("a = 2E+10;"), number("2E+10"));
    assert_eq!("1.5e-3".parse::<f32>().unwrap(), 0.0015f32);
    // An exponent needs a digit: `1e` is the number 1 followed by a name.
    assert_eq!(
        parse("a = 1e;"),
        Err(SyntaxError::UnrecognizedToken { start: 5, end: 6 })
    );
}

#[test]
fn text_literals_keep_their_escapes() {
    assert_eq!(declaration(r#"a = "hi";"#), ast::Expr::Text("hi"));
    assert_eq!(declaration(r#"a = "";"#), ast::Expr::Text(""));
    assert_eq!(
        declaration(r#"a = "say \"hi\"\\";"#),
        ast::Expr::Text(r#"say \"hi\"\\"#)
    );
    assert_eq!(
        declaration("a = \"gr\u{fc}\u{df}e // no comment\";"),
        ast::Expr::Text("gr\u{fc}\u{df}e // no comment")
    );
}

#[test]
fn positions_count_characters() {
    // Two characters of two bytes each stand before the offending `@`.
    assert_eq!(
        parse("/* \u{e9}\u{e9} */ @"),
        Err(SyntaxError::InvalidToken { location: 9 })
    );
    assert_eq!(
        parse("\u{e9} = 1;"),
        Err(SyntaxError::InvalidToken { location: 0 })
    );
    assert_eq!(
        parse("// gr\u{fc}\u{df}e\nname = \"\u{e9}\";").unwrap(),
        vec![ast::Statement::VariableDeclaration(
            "name",
            ast::Expr::Text("\u{e9}")
        )]
    );
}

#[test]
fn binary_operators_bind_by_level() {
    assert_eq!(
        declaration("a = 1 + 2 * 3;"),
        op(
            number("1"),
            ast::Opcode::Add,
            op(number("2"), ast::Opcode::Mul, number("3"))
        )
    );
    assert_eq!(
        declaration("a = (1 + 2) * 3;"),
        op(
            op(number("1"), ast::Opcode::Add, number("2")),
            ast::Opcode::Mul,
            number("3")
        )
    );
    assert_eq!(
        declaration("a = 1 < 2 == 3 >= 4;"),
        op(
            op(number("1"), ast::Opcode::Lt, number("2")),
            ast::Opcode::Equal,
            op(number("3"), ast::Opcode::Gte, number("4"))
        )
    );
    assert_eq!(
        declaration("a = b || c && d;"),
        ast::Expr::Or(
            Box::new(variable("b")),
            Box::new(ast::Expr::And(
                Box::new(variable("c")),
                Box::new(variable("d"))
            ))
        )
    );
    assert_eq!(
        declaration("a = 1 != 2;"),
        op(number("1"), ast::Opcode::NotEqual, number("2"))
    );
    assert_eq!(
        declaration("a = 1 <= 2;"),
        op(number("1"), ast::Opcode::Lte, number("2"))
    );
}

#[test]
fn binary_operators_group_to_the_left() {
    assert_eq!(
        declaration("a = 1 - 2 - 3;"),
        op(
            op(number("1"), ast::Opcode::Sub, number("2")),
            ast::Opcode::Sub,
            number("3")
        )
    );
    assert_eq!(
        declaration("a = 8 / 4 % 3 * 2;"),
        op(
            op(
                op(number("8"), ast::Opcode::Div, number("4")),
                ast::Opcode::Rem,
                number("3")
            ),
            ast::Opcode::Mul,
            number("2")
        )
    );
}

#[test]
fn unary_and_postfix_operators() {
    assert_eq!(
        declaration("a = -b.x[0];"),
        ast::Expr::Negative(Box::new(ast::Expr::ArrayAccess {
            array: Box::new(ast::Expr::FieldAccess {
                parent: Box::new(variable("b")),
                field: "x",
            }),
            index: Box::new(number("0")),
        }))
    );
    assert_eq!(
        declaration("a = !-b;"),
        ast::Expr::Not(Box::new(ast::Expr::Negative(Box::new(variable("b")))))
    );
    assert_eq!(
        declaration("a = b[1][2];"),
        ast::Expr::ArrayAccess {
            array: Box::new(ast::Expr::ArrayAccess {
                array: Box::new(variable("b")),
                index: Box::new(number("1")),
            }),
            index: Box::new(number("2")),
        }
    );
    assert_eq!(
        declaration("a = -1 - -2;"),
        op(
            ast::Expr::Negative(Box::new(number("1"))),
            ast::Opcode::Sub,
            ast::Expr::Negative(Box::new(number("2")))
        )
    );
}

#[test]
fn ternary_nests_to_the_right() {
    assert_eq!(
        declaration("a = b ? 1 : c ? 2 : 3;"),
        ast::Expr::Ternary {
            condition: Box::new(variable("b")),
            if_true: Box::new(number("1")),
            if_false: Box::new(ast::Expr::Ternary {
                condition: Box::new(variable("c")),
                if_true: Box::new(number("2")),
                if_false: Box::new(number("3")),
            }),
        }
    );
}

#[test]
fn literals_and_calls() {
    assert_eq!(declaration("a = undef;"), ast::Expr::Undef);
    assert_eq!(declaration("a = false;"), ast::Expr::Boolean(false));
    assert_eq!(declaration("$fn = 32;"), number("32"));
    assert_eq!(
        declaration("a = f();"),
        ast::Expr::Function(ast::FunctionCall {
            name: "f",
            parameters: vec![],
        })
    );
    assert_eq!(
        declaration("a = max(1, b, center=true,);"),
        ast::Expr::Function(ast::FunctionCall {
            name: "max",
            parameters: vec![
                unnamed(number("1")),
                unnamed(variable("b")),
                named("center", ast::Expr::Boolean(true)),
            ],
        })
    );
}

#[test]
fn vectors_and_ranges() {
    assert_eq!(declaration("a = [];"), ast::Expr::Vector(vec![]));
    assert_eq!(declaration("a = [1];"), ast::Expr::Vector(vec![number("1")]));
    assert_eq!(
        declaration("a = [1, [2, 3],];"),
        ast::Expr::Vector(vec![
            number("1"),
            ast::Expr::Vector(vec![number("2"), number("3")])
        ])
    );
    assert_eq!(
        declaration("a = [0 : 10];"),
        ast::Expr::Range {
            start: Box::new(number("0")),
            end: Box::new(number("10")),
            increment: None,
        }
    );
    assert_eq!(
        declaration("a = [0 : 2 : 10];"),
        ast::Expr::Range {
            start: Box::new(number("0")),
            end: Box::new(number("10")),
            increment: Some(Box::new(number("2"))),
        }
    );
    assert!(parse("a = [1 2];").is_err());
    assert!(parse("a = [,];").is_err());
    assert!(parse("a = [0:1:2:3];").is_err());
}

#[test]
fn let_echo_and_assert_expressions() {
    assert_eq!(
        declaration("a = let(b = 1, c = 2) let(d = 3) b + d;"),
        ast::Expr::Let(
            vec![
                ast::Let {
                    vars: vec![named("b", number("1")), named("c", number("2"))],
                },
                ast::Let {
                    vars: vec![named("d", number("3"))],
                },
            ],
            Box::new(op(variable("b"), ast::Opcode::Add, variable("d")))
        )
    );
    assert_eq!(
        declaration(r#"a = echo("x", b) b;"#),
        ast::Expr::Echo(
            vec![unnamed(ast::Expr::Text("x")), unnamed(variable("b"))],
            Box::new(variable("b"))
        )
    );
    assert_eq!(
        declaration("a = assert(b > 0) b;"),
        ast::Expr::Assert(
            vec![unnamed(op(variable("b"), ast::Opcode::Gt, number("0")))],
            Box::new(variable("b"))
        )
    );
    // A `let` that is not followed by `for` is the first element of a vector.
    assert_eq!(
        declaration("a = [let(b = 1) b, 2];"),
        ast::Expr::Vector(vec![
            ast::Expr::Let(
                vec![ast::Let {
                    vars: vec![named("b", number("1"))],
                }],
                Box::new(variable("b"))
            ),
            number("2"),
        ])
    );
    assert_eq!(
        declaration("a = [for (i = [0:3]) i];"),
        ast::Expr::ListComprehension {
            lets: vec![],
            variables: vec![named(
                "i",
                ast::Expr::Range {
                    start: Box::new(number("0")),
                    end: Box::new(number("3")),
                    increment: None,
                }
            )],
            body: Box::new(variable("i")),
        }
    );
}

#[test]
fn definitions() {
    assert_eq!(
        parse("function f(x, y = 2) = x + y;").unwrap(),
        vec![ast::Statement::FunctionDefinition(
            "f",
            vec![
                ast::ParameterDefinition {
                    name: "x",
                    default_value: None,
                },
                ast::ParameterDefinition {
                    name: "y",
                    default_value: Some(number("2")),
                },
            ],
            op(variable("x"), ast::Opcode::Add, variable("y")),
        )]
    );
    assert_eq!(
        parse("module m(size = 1,) cube(size);").unwrap(),
        vec![ast::Statement::ModuleDefinition {
            name: "m",
            args: vec![ast::ParameterDefinition {
                name: "size",
                default_value: Some(number("1")),
            }],
            body: Box::new(call("cube", vec![unnamed(variable("size"))], vec![])),
        }]
    );
    assert!(parse("function f(x) = x").is_err());
    assert!(parse("function f(1) = 1;").is_err());
    assert!(parse("module (x) {}").is_err());
}

#[test]
fn control_statements() {
    assert_eq!(
        parse("if (a) cube(1);").unwrap(),
        vec![ast::Statement::make_if(
            variable("a"),
            vec![call("cube", vec![unnamed(number("1"))], vec![])]
        )]
    );
    assert_eq!(
        parse("if (a) { b = 1; } else c = 2;").unwrap(),
        vec![ast::Statement::If {
            condition: variable("a"),
            if_true: vec![ast::Statement::VariableDeclaration("b", number("1"))],
            if_false: vec![ast::Statement::VariableDeclaration("c", number("2"))],
        }]
    );
    // An `else` belongs to the nearest `if`.
    assert_eq!(
        parse("if (a) if (b) ; else { }").unwrap(),
        vec![ast::Statement::If {
            condition: variable("a"),
            if_true: vec![ast::Statement::If {
                condition: variable("b"),
                if_true: vec![],
                if_false: vec![ast::Statement::StatementList(vec![])],
            }],
            if_false: vec![],
        }]
    );
    assert_eq!(
        parse("#for (i = [0:2], j = v) { cube(i); }").unwrap(),
        vec![ast::Statement::For {
            variables: vec![
                named(
                    "i",
                    ast::Expr::Range {
                        start: Box::new(number("0")),
                        end: Box::new(number("2")),
                        increment: None,
                    }
                ),
                named("j", variable("v")),
            ],
            body: vec![call("cube", vec![unnamed(variable("i"))], vec![])],
            modifier: Some(ast::Modifier::Highlight),
        }]
    );
}

#[test]
fn every_modifier() {
    let modifier = |text| match parse(text).unwrap().pop().unwrap() {
        ast::Statement::ModuleCall(call) => call.modifier,
        other => panic!("not a call: {:?}", other),
    };
    assert_eq!(modifier("cube();"), None);
    assert_eq!(modifier("*cube();"), Some(ast::Modifier::Disable));
    assert_eq!(modifier("!cube();"), Some(ast::Modifier::ShowOnly));
    assert_eq!(modifier("#cube();"), Some(ast::Modifier::Highlight));
    assert_eq!(modifier("%cube();"), Some(ast::Modifier::Transparent));
    assert!(parse("%#cube();").is_err());
}

#[test]
fn statements_named_like_expressions() {
    assert_eq!(
        parse(r#"echo("x"); assert(true); let(a = 1) cube(a);"#).unwrap(),
        vec![
            call("echo", vec![unnamed(ast::Expr::Text("x"))], vec![]),
            call("assert", vec![unnamed(ast::Expr::Boolean(true))], vec![]),
            call(
                "let",
                vec![named("a", number("1"))],
                vec![call("cube", vec![unnamed(variable("a"))], vec![])]
            ),
        ]
    );
}

#[test]
fn include_and_use() {
    assert_eq!(
        parse("include <shapes/base.scad>\nuse<lib.scad>;").unwrap(),
        vec![
            ast::Statement::Include("shapes/base.scad"),
            ast::Statement::Use("lib.scad"),
            ast::Statement::NoOp,
        ]
    );
    assert_eq!(
        parse("include \"a.scad\""),
        Err(SyntaxError::InvalidToken { location: 8 })
    );
    assert_eq!(
        parse("use <a.scad"),
        Err(SyntaxError::InvalidToken { location: 4 })
    );
}

#[test]
fn empty_statements_and_blocks() {
    assert_eq!(
        parse(";{};").unwrap(),
        vec![
            ast::Statement::NoOp,
            ast::Statement::StatementList(vec![]),
            ast::Statement::NoOp,
        ]
    );
    assert_eq!(
        parse("{ a = 1; { } }").unwrap(),
        vec![ast::Statement::StatementList(vec![
            ast::Statement::VariableDeclaration("a", number("1")),
            ast::Statement::StatementList(vec![]),
        ])]
    );
}

#[test]
fn each_syntax_error() {
    assert_eq!(
        parse("a = @;"),
        Err(SyntaxError::InvalidToken { location: 4 })
    );
    assert_eq!(
        parse("a = b & c;"),
        Err(SyntaxError::InvalidToken { location: 6 })
    );
    assert_eq!(
        parse("  /* never closed"),
        Err(SyntaxError::InvalidToken { location: 2 })
    );
    assert_eq!(
        parse("a = \"never closed;"),
        Err(SyntaxError::InvalidToken { location: 4 })
    );
    assert_eq!(
        parse("a = \"ends in a backslash\\"),
        Err(SyntaxError::InvalidToken { location: 4 })
    );
    assert_eq!(
        parse("a = 1"),
        Err(SyntaxError::UnrecognizedEof { location: 5 })
    );
    assert_eq!(
        parse("{ a = 1; "),
        Err(SyntaxError::UnrecognizedEof { location: 9 })
    );
    assert_eq!(
        parse("a = ;"),
        Err(SyntaxError::UnrecognizedToken { start: 4, end: 5 })
    );
    assert_eq!(
        parse("a = b.for;"),
        Err(SyntaxError::UnrecognizedToken { start: 6, end: 9 })
    );
    assert_eq!(
        parse("}"),
        Err(SyntaxError::UnrecognizedToken { start: 0, end: 1 })
    );
    assert_eq!(
        parse("a = (1;"),
        Err(SyntaxError::UnrecognizedToken { start: 6, end: 7 })
    );
}

#[test]
fn constructors_of_the_tree() {
    assert_eq!(
        ast::Statement::make_if(variable("a"), vec![ast::Statement::NoOp]),
        ast::Statement::If {
            condition: variable("a"),
            if_true: vec![ast::Statement::NoOp],
            if_false: vec![],
        }
    );
    assert_eq!(
        ast::Statement::make_if_else(variable("a"), vec![], ast::Statement::NoOp),
        ast::Statement::If {
            condition: variable("a"),
            if_true: vec![],
            if_false: vec![ast::Statement::NoOp],
        }
    );
    assert_eq!(
        ast::Expr::array_access(variable("a"), number("1")),
        ast::Expr::ArrayAccess {
            array: Box::new(variable("a")),
            index: Box::new(number("1")),
        }
    );
    assert_eq!(
        ast::Expr::field_access(variable("a"), "y"),
        ast::Expr::FieldAccess {
            parent: Box::new(variable("a")),
            field: "y",
        }
    );
    assert_eq!(
        ast::Expr::range(number("1"), Some(number("2")), number("3")),
        ast::Expr::Range {
            start: Box::new(number("1")),
            end: Box::new(number("3")),
            increment: Some(Box::new(number("2"))),
        }
    );
    assert_eq!(
        ast::Expr::range(number("1"), None, number("3")),
        ast::Expr::Range {
            start: Box::new(number("1")),
            end: Box::new(number("3")),
            increment: None,
        }
    );
}

#[test]
fn every_prefix_is_read_or_refused() {
    let text = "include <a.scad>\n/* gr\u{fc}\u{df}e */ $fn = 1.5e3;\n\
                function f(x, y = [1 : 2 : 3]) = let(z = x.y[0]) echo(\"\u{e9}\\\"\", k = z) z ? -x : !y;\n\
                module m(a = f(1, 2)) { if (a >= 1 && a != 2 || a <= 3) %cube([a, a % 2, a / 2]); else for (i = [0 : a]) #m(i); }\n\
                v = [let(n = 5) for (i = [1 : n]) i * i]; // the end";
    assert_eq!(parse(text).unwrap().len(), 5);
    let mut refused = 0;
    for (end, _) in text.char_indices() {
        match parse(&text[..end]) {
            Ok(statements) => assert!(statements.len() <= 5),
            Err(error) => {
                refused += 1;
                let location = match error {
                    SyntaxError::InvalidToken { location } => location,
                    SyntaxError::UnrecognizedEof { location } => location,
                    SyntaxError::UnrecognizedToken { start, end } => {
                        assert!(start < end);
                        end
                    }
                };
                assert!(location <= text[..end].chars().count());
            }
        }
    }
    assert!(refused > 100);
}

#[test]
fn nesting_is_followed_to_the_bottom() {
    let depth = 200;
    let mut text = String::from("a = ");
    for _ in 0..depth {
        text.push_str("[(-");
    }
    text.push('1');
    for _ in 0..depth {
        text.push_str(")]");
    }
    text.push(';');
    let mut value = &declaration_of(&parse(&text).unwrap()).clone();
    for _ in 0..depth {
        value = match value {
            ast::Expr::Vector(items) => match &items[0] {
                ast::Expr::Negative(inner) => &**inner,
                other => panic!("not a negation: {:?}", other),
            },
            other => panic!("not a vector: {:?}", other),
        };
    }
    assert_eq!(value, &number("1"));
}

fn declaration_of<'a, 'b>(statements: &'b [ast::Statement<'a>]) -> &'b ast::Expr<'a> {
    match &statements[0] {
        ast::Statement::VariableDeclaration(_, value) => value,
        other => panic!("not a declaration: {:?}", other),
    }
}

#[test]
fn a_parser_reads_its_text_once() {
    let parser = rscad::syntax::Parser::new("a = 1; b = [a];").unwrap();
    assert_eq!(parser.tokens.len(), 11);
    assert_eq!(parser.length, 15);
    assert!(parser.ascii);
    assert_eq!(parser.document(), parse("a = 1; b = [a];"));
    assert_eq!(parser.document().unwrap().len(), 2);
    assert_eq!(
        rscad::syntax::Parser::new("a = \u{e9};").err(),
        Some(SyntaxError::InvalidToken { location: 4 })
    );
    let parser = rscad::syntax::Parser::new("a = \"\u{e9}\";").unwrap();
    assert!(!parser.ascii);
    assert_eq!(parser.length, 8);
}
