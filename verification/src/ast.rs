//! Raw syntax tree of an OpenSCAD document, addressed by name.
//!
//! The tree knows nothing about standard modules or functions (`sphere`,
//! `import`, ...): it only records the shape of the source text. Every type
//! has a mathematical view (`Seq` in place of `Vec`, `Seq<char>` in place of
//! `&str`) over which the contracts of the crate are stated.

use vstd::prelude::*;

verus! {

/// An item in a SCAD scene.
#[allow(inconsistent_fields)]
#[derive(Debug, PartialEq)]
pub enum Statement<'input> {
    /// Variable declaration
    VariableDeclaration(&'input str, Expr<'input>),
    /// A statement block in { }
    StatementList(Vec<Statement<'input>>),
    /// Nothing.
    NoOp,
    /// Module definition
    ModuleDefinition {
        name: &'input str,
        args: Vec<ParameterDefinition<'input>>,
        body: Box<Statement<'input>>,
    },
    /// Function definition
    FunctionDefinition(&'input str, Vec<ParameterDefinition<'input>>, Expr<'input>),
    /// Includes another file
    Include(&'input str),
    /// Use another file
    Use(&'input str),
    /// Function call (or module call)
    ModuleCall(ModuleCall<'input>),
    /// A for-loop
    For {
        /// Variables looped over
        variables: Vec<ParameterValue<'input>>,
        /// Body of the for-loop
        body: Vec<Statement<'input>>,
        /// Optional modifier
        modifier: Option<Modifier>,
    },
    /// A comment (can be ignored)
    Comment(&'input str),
    /// If-block
    If {
        /// Condition for this block
        condition: Expr<'input>,
        /// Body if the condition is true
        if_true: Vec<Statement<'input>>,
        /// Body if the condition is false
        if_false: Vec<Statement<'input>>,
    },
}

/// Describes a function call: ex `sphere(1, center=true)`
#[derive(Debug, PartialEq)]
pub struct ModuleCall<'input> {
    /// Name of the function being called
    pub function: &'input str,
    /// List of parameters given
    pub params: Vec<ParameterValue<'input>>,
    /// Children of the call, if any (used for `union`/`difference`/...)
    pub children: Vec<Statement<'input>>,
    /// Optional modifier
    pub modifier: Option<Modifier>,
}

#[derive(Clone, Copy, Debug, PartialEq, Eq)]
pub enum Modifier {
    /// Do not render this element
    Disable,
    /// Only render this element
    ShowOnly,
    /// Highlight this element
    Highlight,
    /// Make this element transparent
    Transparent,
}

/// A parameter given to a function, possibly named.
#[derive(Debug, PartialEq)]
pub struct ParameterValue<'input> {
    /// Optional name for this parameter
    pub name: Option<&'input str>,
    /// Value given to this parameter
    pub value: Expr<'input>,
}

/// An argument in a function declaration, possibly with default value.
#[derive(Debug, PartialEq)]
pub struct ParameterDefinition<'input> {
    /// Name of the parameter
    pub name: &'input str,
    /// Optional default value for this parameter
    pub default_value: Option<Expr<'input>>,
}

#[derive(Debug, PartialEq)]
pub struct FunctionCall<'input> {
    /// Name of the function being called
    pub name: &'input str,
    /// Parameters given to the function
    pub parameters: Vec<ParameterValue<'input>>,
}

/// A local variable definition: `let (a=42)`
#[derive(Debug, PartialEq)]
pub struct Let<'input> {
    pub vars: Vec<ParameterValue<'input>>,
}

/// An expression of the raw tree.
#[derive(Debug, PartialEq)]
pub enum Expr<'input> {
    /// Undefined expression.
    Undef,
    /// A boolean literal
    Boolean(bool),
    /// A number literal, as it is written in the source text
    Number(&'input str),
    /// A text literal: the characters between the quotes
    Text(&'input str),
    /// Negative another expression
    Negative(Box<Expr<'input>>),
    /// Boolean NOT (!)
    Not(Box<Expr<'input>>),
    /// A variable
    Variable(&'input str),
    /// A function call
    Function(FunctionCall<'input>),
    /// Print something, then resolve the expression.
    Echo(Vec<ParameterValue<'input>>, Box<Expr<'input>>),
    /// Check something, then resolve the expression.
    Assert(Vec<ParameterValue<'input>>, Box<Expr<'input>>),
    /// Defines some local variables, then resolve the expression.
    Let(Vec<Let<'input>>, Box<Expr<'input>>),
    /// A list comprehension: [let(n=5) for(i = [1:n]) i*i]
    ListComprehension {
        /// Variable definitions to run before the loop.
        lets: Vec<Let<'input>>,
        /// Variables to loop over
        variables: Vec<ParameterValue<'input>>,
        /// Body of the loop
        body: Box<Expr<'input>>,
    },
    /// A vector: `[1, 2, 3*a]`
    Vector(Vec<Expr<'input>>),
    /// An operation: `a + 3`, `f(n) == 0`, ...
    Op(Box<Expr<'input>>, Opcode, Box<Expr<'input>>),
    /// `a || b`
    Or(Box<Expr<'input>>, Box<Expr<'input>>),
    /// `a && b`
    And(Box<Expr<'input>>, Box<Expr<'input>>),
    /// Access a field from an object: `foobar.x`
    FieldAccess { parent: Box<Expr<'input>>, field: &'input str },
    /// Access an array value: `a[2 + 3]`
    ArrayAccess {
        /// Array to index into
        array: Box<Expr<'input>>,
        /// Index value
        index: Box<Expr<'input>>,
    },
    /// A ternary operation: `a ? b : c`
    Ternary {
        /// Condition of the ternary
        condition: Box<Expr<'input>>,
        /// Body if the condition is true
        if_true: Box<Expr<'input>>,
        /// Body if the condition is false
        if_false: Box<Expr<'input>>,
    },
    /// A range: `[0 : 10 : 100]`
    Range {
        /// Inclusive start of the range
        start: Box<Expr<'input>>,
        /// Inclusive end of the range
        end: Box<Expr<'input>>,
        /// Increment this value each step
        increment: Option<Box<Expr<'input>>>,
    },
}

/// An operation between expressions
#[derive(Clone, Copy, Debug, PartialEq, Eq)]
pub enum Opcode {
    /// Multiplication
    Mul,
    /// Division
    Div,
    /// Remainder
    Rem,
    /// Addition
    Add,
    /// Subtraction
    Sub,
    /// Equality check
    Equal,
    /// Not-equality check
    NotEqual,
    /// Greater than
    Gt,
    /// Greater than, or equal
    Gte,
    /// Less than
    Lt,
    /// Less than, or equal
    Lte,
}

/// Mathematical value of a [`Statement`].
#[allow(inconsistent_fields)]
pub enum StatementView {
    VariableDeclaration(Seq<char>, ExprView),
    StatementList(Seq<StatementView>),
    NoOp,
    ModuleDefinition { name: Seq<char>, args: Seq<ParameterDefinitionView>, body: Box<StatementView> },
    FunctionDefinition(Seq<char>, Seq<ParameterDefinitionView>, ExprView),
    Include(Seq<char>),
    Use(Seq<char>),
    ModuleCall(ModuleCallView),
    For { variables: Seq<ParameterValueView>, body: Seq<StatementView>, modifier: Option<Modifier> },
    Comment(Seq<char>),
    If { condition: ExprView, if_true: Seq<StatementView>, if_false: Seq<StatementView> },
}

/// Mathematical value of a [`ModuleCall`].
pub struct ModuleCallView {
    pub function: Seq<char>,
    pub params: Seq<ParameterValueView>,
    pub children: Seq<StatementView>,
    pub modifier: Option<Modifier>,
}

/// Mathematical value of a [`ParameterValue`].
pub struct ParameterValueView {
    pub name: Option<Seq<char>>,
    pub value: ExprView,
}

/// Mathematical value of a [`ParameterDefinition`].
pub struct ParameterDefinitionView {
    pub name: Seq<char>,
    pub default_value: Option<ExprView>,
}

/// Mathematical value of a [`FunctionCall`].
pub struct FunctionCallView {
    pub name: Seq<char>,
    pub parameters: Seq<ParameterValueView>,
}

/// Mathematical value of a [`Let`].
pub struct LetView {
    pub vars: Seq<ParameterValueView>,
}

/// Mathematical value of an [`Expr`].
pub enum ExprView {
    Undef,
    Boolean(bool),
    Number(Seq<char>),
    Text(Seq<char>),
    Negative(Box<ExprView>),
    Not(Box<ExprView>),
    Variable(Seq<char>),
    Function(FunctionCallView),
    Echo(Seq<ParameterValueView>, Box<ExprView>),
    Assert(Seq<ParameterValueView>, Box<ExprView>),
    Let(Seq<LetView>, Box<ExprView>),
    ListComprehension { lets: Seq<LetView>, variables: Seq<ParameterValueView>, body: Box<ExprView> },
    Vector(Seq<ExprView>),
    Op(Box<ExprView>, Opcode, Box<ExprView>),
    Or(Box<ExprView>, Box<ExprView>),
    And(Box<ExprView>, Box<ExprView>),
    FieldAccess { parent: Box<ExprView>, field: Seq<char> },
    ArrayAccess { array: Box<ExprView>, index: Box<ExprView> },
    Ternary { condition: Box<ExprView>, if_true: Box<ExprView>, if_false: Box<ExprView> },
    Range { start: Box<ExprView>, end: Box<ExprView>, increment: Option<Box<ExprView>> },
}

/// The characters of an optional name.
pub open spec fn name_view(name: Option<&str>) -> Option<Seq<char>> {
    match name {
        Some(n) => Some(n@),
        None => None,
    }
}

/// The value of an expression.
pub open spec fn expr_view(e: Expr) -> ExprView
    decreases e,
{
    match e {
        Expr::Undef => ExprView::Undef,
        Expr::Boolean(b) => ExprView::Boolean(b),
        Expr::Number(n) => ExprView::Number(n@),
        Expr::Text(t) => ExprView::Text(t@),
        Expr::Negative(inner) => ExprView::Negative(Box::new(expr_view(*inner))),
        Expr::Not(inner) => ExprView::Not(Box::new(expr_view(*inner))),
        Expr::Variable(name) => ExprView::Variable(name@),
        Expr::Function(call) => ExprView::Function(function_call_view(call)),
        Expr::Echo(params, inner) => ExprView::Echo(
            parameter_values_view(params@),
            Box::new(expr_view(*inner)),
        ),
        Expr::Assert(params, inner) => ExprView::Assert(
            parameter_values_view(params@),
            Box::new(expr_view(*inner)),
        ),
        Expr::Let(lets, inner) => ExprView::Let(lets_view(lets@), Box::new(expr_view(*inner))),
        Expr::ListComprehension { lets, variables, body } => ExprView::ListComprehension {
            lets: lets_view(lets@),
            variables: parameter_values_view(variables@),
            body: Box::new(expr_view(*body)),
        },
        Expr::Vector(values) => ExprView::Vector(exprs_view(values@)),
        Expr::Op(a, op, b) => ExprView::Op(Box::new(expr_view(*a)), op, Box::new(expr_view(*b))),
        Expr::Or(a, b) => ExprView::Or(Box::new(expr_view(*a)), Box::new(expr_view(*b))),
        Expr::And(a, b) => ExprView::And(Box::new(expr_view(*a)), Box::new(expr_view(*b))),
        Expr::FieldAccess { parent, field } => ExprView::FieldAccess {
            parent: Box::new(expr_view(*parent)),
            field: field@,
        },
        Expr::ArrayAccess { array, index } => ExprView::ArrayAccess {
            array: Box::new(expr_view(*array)),
            index: Box::new(expr_view(*index)),
        },
        Expr::Ternary { condition, if_true, if_false } => ExprView::Ternary {
            condition: Box::new(expr_view(*condition)),
            if_true: Box::new(expr_view(*if_true)),
            if_false: Box::new(expr_view(*if_false)),
        },
        Expr::Range { start, end, increment } => ExprView::Range {
            start: Box::new(expr_view(*start)),
            end: Box::new(expr_view(*end)),
            increment: match increment {
                Some(step) => Some(Box::new(expr_view(*step))),
                None => None,
            },
        },
    }
}

/// The values of a list of expressions.
pub open spec fn exprs_view(es: Seq<Expr>) -> Seq<ExprView>
    decreases es,
{
    Seq::new(
        es.len(),
        |i: int|
            if 0 <= i < es.len() {
                expr_view(es[i])
            } else {
                ExprView::Undef
            },
    )
}

/// The value of a parameter given to a call.
pub open spec fn parameter_value_view(p: ParameterValue) -> ParameterValueView
    decreases p,
{
    ParameterValueView { name: name_view(p.name), value: expr_view(p.value) }
}

/// The values of a list of parameters given to a call.
pub open spec fn parameter_values_view(ps: Seq<ParameterValue>) -> Seq<ParameterValueView>
    decreases ps,
{
    Seq::new(
        ps.len(),
        |i: int|
            if 0 <= i < ps.len() {
                parameter_value_view(ps[i])
            } else {
                ParameterValueView { name: None, value: ExprView::Undef }
            },
    )
}

/// The value of a function call.
pub open spec fn function_call_view(call: FunctionCall) -> FunctionCallView
    decreases call,
{
    FunctionCallView { name: call.name@, parameters: parameter_values_view(call.parameters@) }
}

/// The value of a `let` clause.
pub open spec fn let_view(l: Let) -> LetView
    decreases l,
{
    LetView { vars: parameter_values_view(l.vars@) }
}

/// The values of a list of `let` clauses.
pub open spec fn lets_view(ls: Seq<Let>) -> Seq<LetView>
    decreases ls,
{
    Seq::new(
        ls.len(),
        |i: int|
            if 0 <= i < ls.len() {
                let_view(ls[i])
            } else {
                LetView { vars: Seq::empty() }
            },
    )
}

/// The value of a parameter of a definition.
pub open spec fn parameter_definition_view(p: ParameterDefinition) -> ParameterDefinitionView {
    ParameterDefinitionView {
        name: p.name@,
        default_value: match p.default_value {
            Some(e) => Some(expr_view(e)),
            None => None,
        },
    }
}

/// The values of a list of parameters of a definition.
pub open spec fn parameter_definitions_view(ps: Seq<ParameterDefinition>) -> Seq<
    ParameterDefinitionView,
> {
    Seq::new(ps.len(), |i: int| parameter_definition_view(ps[i]))
}

/// The value of a statement.
pub open spec fn statement_view(s: Statement) -> StatementView
    decreases s,
{
    match s {
        Statement::VariableDeclaration(name, e) => StatementView::VariableDeclaration(
            name@,
            expr_view(e),
        ),
        Statement::StatementList(list) => StatementView::StatementList(statements_view(list@)),
        Statement::NoOp => StatementView::NoOp,
        Statement::ModuleDefinition { name, args, body } => StatementView::ModuleDefinition {
            name: name@,
            args: parameter_definitions_view(args@),
            body: Box::new(statement_view(*body)),
        },
        Statement::FunctionDefinition(name, params, body) => StatementView::FunctionDefinition(
            name@,
            parameter_definitions_view(params@),
            expr_view(body),
        ),
        Statement::Include(path) => StatementView::Include(path@),
        Statement::Use(path) => StatementView::Use(path@),
        Statement::ModuleCall(call) => StatementView::ModuleCall(module_call_view(call)),
        Statement::For { variables, body, modifier } => StatementView::For {
            variables: parameter_values_view(variables@),
            body: statements_view(body@),
            modifier,
        },
        Statement::Comment(text) => StatementView::Comment(text@),
        Statement::If { condition, if_true, if_false } => StatementView::If {
            condition: expr_view(condition),
            if_true: statements_view(if_true@),
            if_false: statements_view(if_false@),
        },
    }
}

/// The values of a list of statements.
pub open spec fn statements_view(ss: Seq<Statement>) -> Seq<StatementView>
    decreases ss,
{
    Seq::new(
        ss.len(),
        |i: int|
            if 0 <= i < ss.len() {
                statement_view(ss[i])
            } else {
                StatementView::NoOp
            },
    )
}

/// The value of a module call.
pub open spec fn module_call_view(call: ModuleCall) -> ModuleCallView
    decreases call,
{
    ModuleCallView {
        function: call.function@,
        params: parameter_values_view(call.params@),
        children: statements_view(call.children@),
        modifier: call.modifier,
    }
}

impl<'input> View for Expr<'input> {
    type V = ExprView;

    open spec fn view(&self) -> ExprView {
        expr_view(*self)
    }
}

impl<'input> View for ParameterValue<'input> {
    type V = ParameterValueView;

    open spec fn view(&self) -> ParameterValueView {
        parameter_value_view(*self)
    }
}

impl<'input> View for ParameterDefinition<'input> {
    type V = ParameterDefinitionView;

    open spec fn view(&self) -> ParameterDefinitionView {
        parameter_definition_view(*self)
    }
}

impl<'input> View for FunctionCall<'input> {
    type V = FunctionCallView;

    open spec fn view(&self) -> FunctionCallView {
        function_call_view(*self)
    }
}

impl<'input> View for Let<'input> {
    type V = LetView;

    open spec fn view(&self) -> LetView {
        let_view(*self)
    }
}

impl<'input> View for Statement<'input> {
    type V = StatementView;

    open spec fn view(&self) -> StatementView {
        statement_view(*self)
    }
}

impl<'input> View for ModuleCall<'input> {
    type V = ModuleCallView;

    open spec fn view(&self) -> ModuleCallView {
        module_call_view(*self)
    }
}

impl<'input> Statement<'input> {
    /// An `if` without an `else` branch.
    pub fn make_if(condition: Expr<'input>, if_true: Vec<Statement<'input>>) -> (s: Self)
        ensures
            s@ == (StatementView::If {
                condition: condition@,
                if_true: statements_view(if_true@),
                if_false: Seq::empty(),
            }),
    {
        let if_false: Vec<Statement<'input>> = Vec::new();
        let s = Statement::If { condition, if_true, if_false };
        assert(statements_view(if_false@) =~= Seq::empty());
        s
    }

    /// An `if` whose `else` branch is the single statement `if_false`.
    pub fn make_if_else(
        condition: Expr<'input>,
        if_true: Vec<Statement<'input>>,
        if_false: Statement<'input>,
    ) -> (s: Self)
        ensures
            s@ == (StatementView::If {
                condition: condition@,
                if_true: statements_view(if_true@),
                if_false: seq![if_false@],
            }),
    {
        let mut branch: Vec<Statement<'input>> = Vec::new();
        let ghost single = if_false@;
        branch.push(if_false);
        assert(statements_view(branch@) =~= seq![single]);
        Statement::If { condition, if_true, if_false: branch }
    }
}

impl<'input> Expr<'input> {
    /// The expression `array[index]`.
    pub fn array_access(array: Expr<'input>, index: Expr<'input>) -> (e: Self)
        ensures
            e@ == (ExprView::ArrayAccess { array: Box::new(array@), index: Box::new(index@) }),
    {
        let array = Box::new(array);
        let index = Box::new(index);
        Expr::ArrayAccess { array, index }
    }

    /// The expression `parent.field`.
    pub fn field_access(parent: Expr<'input>, field: &'input str) -> (e: Self)
        ensures
            e@ == (ExprView::FieldAccess { parent: Box::new(parent@), field: field@ }),
    {
        let parent = Box::new(parent);
        Expr::FieldAccess { parent, field }
    }

    /// The range `[start : increment : end]`, or `[start : end]` without an
    /// increment.
    pub fn range(start: Self, increment: Option<Self>, end: Self) -> (e: Self)
        ensures
            e@ == (ExprView::Range {
                start: Box::new(start@),
                end: Box::new(end@),
                increment: match increment {
                    Some(step) => Some(Box::new(step@)),
                    None => None,
                },
            }),
    {
        let start = Box::new(start);
        let increment = match increment {
            Some(step) => Some(Box::new(step)),
            None => None,
        };
        let end = Box::new(end);
        Expr::Range { start, end, increment }
    }
}

} // verus!
