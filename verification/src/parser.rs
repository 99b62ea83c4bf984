//! Resolved representation of a document: the tree in which every name
//! reference has become a slot address into a chain of lexical scopes.

use crate::ast;
use crate::context::{lemma_add_slots_append, lemma_add_slots_push, Context, EnvironmentView};
use crate::diagnostic::{diagnostics_view, report, Diagnostic, DiagnosticView};
use crate::resolution::{
    let_names, parameter_names, resolve_defaults, resolve_document, resolve_expr, resolve_exprs,
    resolve_lets, resolve_parameter_value, resolve_parameter_values, resolve_statement,
    resolve_statements, value_names,
};
use vstd::prelude::*;

verus! {

/// Address of a binding, relative to the scope in which it is used.
#[derive(Clone, Copy, Debug, PartialEq, Eq)]
pub struct Id {
    /// How deeply scoped is the variable?
    /// 0: current scope
    /// 1: parent scope
    pub depth: usize,
    /// In the given scope, what is the ID?
    pub id: usize,
}

/// The address of a variable.
pub type VariableId = Id;

/// The address of a function.
pub type FunctionId = Id;

/// The address of a module.
pub type ModuleId = Id;

/// Mathematical value of an [`Id`]: how many scopes to walk outward, and the
/// position of the binding among those of its kind in the scope reached.
pub struct SlotAddress {
    pub depth: nat,
    pub index: nat,
}

impl View for Id {
    type V = SlotAddress;

    open spec fn view(&self) -> SlotAddress {
        SlotAddress { depth: self.depth as nat, index: self.id as nat }
    }
}

/// One of the three spatial axes, the only fields an expression can access.
#[derive(Clone, Copy, Debug, PartialEq, Eq)]
pub enum Axis {
    X,
    Y,
    Z,
}

/// The axis that a field name denotes: `x`, `y` or `z`, and nothing else.
pub open spec fn axis_of(field: Seq<char>) -> Option<Axis> {
    if field =~= seq!['x'] {
        Some(Axis::X)
    } else if field =~= seq!['y'] {
        Some(Axis::Y)
    } else if field =~= seq!['z'] {
        Some(Axis::Z)
    } else {
        None
    }
}

impl Axis {
    /// Reads an axis label.
    pub fn from_str(field: &str) -> (axis: Option<Self>)
        ensures
            axis == axis_of(field@),
    {
        if field.unicode_len() != 1 {
            return None;
        }
        let c = field.get_char(0);
        if c == 'x' {
            Some(Axis::X)
        } else if c == 'y' {
            Some(Axis::Y)
        } else if c == 'z' {
            Some(Axis::Z)
        } else {
            None
        }
    }
}

/// Represent a parsed expression.
#[derive(Debug, PartialEq)]
pub enum Expr {
    /// Stands for whatever could not be resolved.
    Undef,
    /// Supplied by the caller: the slot has no initializer of its own.
    Extern,
    Boolean(bool),
    /// A number literal, as it is written in the source text
    Number(String),
    Text(String),
    Negative(Box<Expr>),
    Not(Box<Expr>),
    Variable(VariableId),
    Echo(Vec<ParameterValue>, Box<Expr>),
    Assert(Vec<ParameterValue>, Box<Expr>),
    Let(Vec<ParameterValue>, Box<Expr>),
    Function(FunctionId, Vec<ParameterValue>),
    ListComprehension { lets: Vec<Expr>, variables: Vec<ParameterValue>, body: Box<Expr> },
    Vector(Vec<Expr>),
    Op(Box<Expr>, ast::Opcode, Box<Expr>),
    Or(Box<Expr>, Box<Expr>),
    And(Box<Expr>, Box<Expr>),
    FieldAccess { parent: Box<Expr>, field: Axis },
    ArrayAccess { array: Box<Expr>, index: Box<Expr> },
    Ternary { condition: Box<Expr>, if_true: Box<Expr>, if_false: Box<Expr> },
    Range { start: Box<Expr>, end: Box<Expr>, increment: Option<Box<Expr>> },
}

#[derive(Debug, PartialEq)]
pub struct Function {
    /// One entry per declared parameter, resolved in the enclosing scope.
    pub default_values: Vec<Option<Expr>>,
    /// The function's own bindings: one slot per parameter.
    pub scope: Scope,
    pub body: Expr,
}

#[derive(Debug, PartialEq)]
pub struct Module {
    /// One entry per declared parameter, resolved in the enclosing scope.
    pub default_values: Vec<Option<Expr>>,
    /// Everything that the module's body declares, after its parameters.
    pub body: Scope,
}

#[derive(Debug, PartialEq)]
pub struct ParameterValue {
    pub name: Option<String>,
    pub value: Expr,
}

#[derive(Debug, PartialEq)]
pub struct ParameterDefinition {
    pub default_value: Option<Expr>,
}

#[derive(Debug, PartialEq)]
pub enum ItemType {
    User(ModuleId),
    Extern(String),
}

#[derive(Debug, PartialEq)]
pub struct Item {
    pub ty: ItemType,
    pub params: Vec<Expr>,
    pub child: Scope,
}

/// The flattened bindings of one lexical block. The position of an entry in
/// `variables`, `functions` or `modules` is the index of its slot address.
#[derive(Debug, PartialEq)]
pub struct Scope {
    pub variables: Vec<Expr>,
    pub functions: Vec<Function>,
    pub modules: Vec<Module>,
    pub items: Vec<Item>,
}

/// Mathematical value of an [`Expr`].
pub enum ExprView {
    Undef,
    Extern,
    Boolean(bool),
    Number(Seq<char>),
    Text(Seq<char>),
    Negative(Box<ExprView>),
    Not(Box<ExprView>),
    Variable(SlotAddress),
    Echo(Seq<ParameterValueView>, Box<ExprView>),
    Assert(Seq<ParameterValueView>, Box<ExprView>),
    Let(Seq<ParameterValueView>, Box<ExprView>),
    Function(SlotAddress, Seq<ParameterValueView>),
    ListComprehension { lets: Seq<ExprView>, variables: Seq<ParameterValueView>, body: Box<ExprView> },
    Vector(Seq<ExprView>),
    Op(Box<ExprView>, ast::Opcode, Box<ExprView>),
    Or(Box<ExprView>, Box<ExprView>),
    And(Box<ExprView>, Box<ExprView>),
    FieldAccess { parent: Box<ExprView>, field: Axis },
    ArrayAccess { array: Box<ExprView>, index: Box<ExprView> },
    Ternary { condition: Box<ExprView>, if_true: Box<ExprView>, if_false: Box<ExprView> },
    Range { start: Box<ExprView>, end: Box<ExprView>, increment: Option<Box<ExprView>> },
}

/// Mathematical value of a [`ParameterValue`].
pub struct ParameterValueView {
    pub name: Option<Seq<char>>,
    pub value: ExprView,
}

/// Mathematical value of a [`Function`].
pub struct FunctionView {
    pub default_values: Seq<Option<ExprView>>,
    pub scope: ScopeView,
    pub body: ExprView,
}

/// Mathematical value of a [`Module`].
pub struct ModuleView {
    pub default_values: Seq<Option<ExprView>>,
    pub body: ScopeView,
}

/// Mathematical value of an [`ItemType`].
pub enum ItemTypeView {
    User(SlotAddress),
    Extern(Seq<char>),
}

/// Mathematical value of an [`Item`].
pub struct ItemView {
    pub ty: ItemTypeView,
    pub params: Seq<ExprView>,
    pub child: ScopeView,
}

/// Mathematical value of a [`Scope`].
pub struct ScopeView {
    pub variables: Seq<ExprView>,
    pub functions: Seq<FunctionView>,
    pub modules: Seq<ModuleView>,
    pub items: Seq<ItemView>,
}

impl ScopeView {
    /// The scope that binds nothing.
    pub open spec fn empty() -> ScopeView {
        ScopeView {
            variables: Seq::empty(),
            functions: Seq::empty(),
            modules: Seq::empty(),
            items: Seq::empty(),
        }
    }
}

/// The characters of an optional owned name.
pub open spec fn name_view(name: Option<String>) -> Option<Seq<char>> {
    match name {
        Some(n) => Some(n@),
        None => None,
    }
}

/// The value of a resolved expression.
pub open spec fn expr_view(e: Expr) -> ExprView
    decreases e,
{
    match e {
        Expr::Undef => ExprView::Undef,
        Expr::Extern => ExprView::Extern,
        Expr::Boolean(b) => ExprView::Boolean(b),
        Expr::Number(n) => ExprView::Number(n@),
        Expr::Text(t) => ExprView::Text(t@),
        Expr::Negative(inner) => ExprView::Negative(Box::new(expr_view(*inner))),
        Expr::Not(inner) => ExprView::Not(Box::new(expr_view(*inner))),
        Expr::Variable(id) => ExprView::Variable(id@),
        Expr::Echo(params, inner) => ExprView::Echo(
            parameter_values_view(params@),
            Box::new(expr_view(*inner)),
        ),
        Expr::Assert(params, inner) => ExprView::Assert(
            parameter_values_view(params@),
            Box::new(expr_view(*inner)),
        ),
        Expr::Let(params, inner) => ExprView::Let(
            parameter_values_view(params@),
            Box::new(expr_view(*inner)),
        ),
        Expr::Function(id, params) => ExprView::Function(id@, parameter_values_view(params@)),
        Expr::ListComprehension { lets, variables, body } => ExprView::ListComprehension {
            lets: exprs_view(lets@),
            variables: parameter_values_view(variables@),
            body: Box::new(expr_view(*body)),
        },
        Expr::Vector(values) => ExprView::Vector(exprs_view(values@)),
        Expr::Op(a, op, b) => ExprView::Op(Box::new(expr_view(*a)), op, Box::new(expr_view(*b))),
        Expr::Or(a, b) => ExprView::Or(Box::new(expr_view(*a)), Box::new(expr_view(*b))),
        Expr::And(a, b) => ExprView::And(Box::new(expr_view(*a)), Box::new(expr_view(*b))),
        Expr::FieldAccess { parent, field } => ExprView::FieldAccess {
            parent: Box::new(expr_view(*parent)),
            field,
        },
        Expr::ArrayAccess { array, index } => ExprView::ArrayAccess {
            array: Box::new(expr_view(*array)),
            index: Box::new(expr_view(*index)),
        },
        Expr::Ternary { condition, if_true, if_false } => ExprView::Ternary {
            condition: Box::new(expr_view(*condition)),
            if_true: Box::new(expr_view(*if_true)),
            if_false: Box::new(expr_view(*if_false)),
        },
        Expr::Range { start, end, increment } => ExprView::Range {
            start: Box::new(expr_view(*start)),
            end: Box::new(expr_view(*end)),
            increment: match increment {
                Some(step) => Some(Box::new(expr_view(*step))),
                None => None,
            },
        },
    }
}

/// The values of a list of resolved expressions.
pub open spec fn exprs_view(es: Seq<Expr>) -> Seq<ExprView>
    decreases es,
{
    Seq::new(
        es.len(),
        |i: int|
            if 0 <= i < es.len() {
                expr_view(es[i])
            } else {
                ExprView::Undef
            },
    )
}

/// The value of a resolved parameter.
pub open spec fn parameter_value_view(p: ParameterValue) -> ParameterValueView
    decreases p,
{
    ParameterValueView { name: name_view(p.name), value: expr_view(p.value) }
}

/// The values of a list of resolved parameters.
pub open spec fn parameter_values_view(ps: Seq<ParameterValue>) -> Seq<ParameterValueView>
    decreases ps,
{
    Seq::new(
        ps.len(),
        |i: int|
            if 0 <= i < ps.len() {
                parameter_value_view(ps[i])
            } else {
                ParameterValueView { name: None, value: ExprView::Undef }
            },
    )
}

/// The value of an optional resolved expression.
pub open spec fn optional_expr_view(e: Option<Expr>) -> Option<ExprView> {
    match e {
        Some(e) => Some(expr_view(e)),
        None => None,
    }
}

/// The values of a list of optional resolved expressions.
pub open spec fn optional_exprs_view(es: Seq<Option<Expr>>) -> Seq<Option<ExprView>> {
    Seq::new(es.len(), |i: int| optional_expr_view(es[i]))
}

/// The value of what a call item calls.
pub open spec fn item_type_view(ty: ItemType) -> ItemTypeView {
    match ty {
        ItemType::User(id) => ItemTypeView::User(id@),
        ItemType::Extern(name) => ItemTypeView::Extern(name@),
    }
}

/// The value of a scope.
pub open spec fn scope_view(s: Scope) -> ScopeView
    decreases s,
{
    ScopeView {
        variables: exprs_view(s.variables@),
        functions: functions_view(s.functions@),
        modules: modules_view(s.modules@),
        items: items_view(s.items@),
    }
}

/// The value of a resolved function.
pub open spec fn function_view(f: Function) -> FunctionView
    decreases f,
{
    FunctionView {
        default_values: optional_exprs_view(f.default_values@),
        scope: scope_view(f.scope),
        body: expr_view(f.body),
    }
}

/// The values of a list of resolved functions.
pub open spec fn functions_view(fs: Seq<Function>) -> Seq<FunctionView>
    decreases fs,
{
    Seq::new(
        fs.len(),
        |i: int|
            if 0 <= i < fs.len() {
                function_view(fs[i])
            } else {
                FunctionView {
                    default_values: Seq::empty(),
                    scope: ScopeView::empty(),
                    body: ExprView::Undef,
                }
            },
    )
}

/// The value of a resolved module.
pub open spec fn module_view(m: Module) -> ModuleView
    decreases m,
{
    ModuleView { default_values: optional_exprs_view(m.default_values@), body: scope_view(m.body) }
}

/// The values of a list of resolved modules.
pub open spec fn modules_view(ms: Seq<Module>) -> Seq<ModuleView>
    decreases ms,
{
    Seq::new(
        ms.len(),
        |i: int|
            if 0 <= i < ms.len() {
                module_view(ms[i])
            } else {
                ModuleView { default_values: Seq::empty(), body: ScopeView::empty() }
            },
    )
}

/// The value of a call item.
pub open spec fn item_view(item: Item) -> ItemView
    decreases item,
{
    ItemView {
        ty: item_type_view(item.ty),
        params: exprs_view(item.params@),
        child: scope_view(item.child),
    }
}

/// The values of a list of call items.
pub open spec fn items_view(items: Seq<Item>) -> Seq<ItemView>
    decreases items,
{
    Seq::new(
        items.len(),
        |i: int|
            if 0 <= i < items.len() {
                item_view(items[i])
            } else {
                ItemView {
                    ty: ItemTypeView::Extern(Seq::empty()),
                    params: Seq::empty(),
                    child: ScopeView::empty(),
                }
            },
    )
}

impl View for Expr {
    type V = ExprView;

    open spec fn view(&self) -> ExprView {
        expr_view(*self)
    }
}

impl View for ParameterValue {
    type V = ParameterValueView;

    open spec fn view(&self) -> ParameterValueView {
        parameter_value_view(*self)
    }
}

impl View for ParameterDefinition {
    type V = Option<ExprView>;

    open spec fn view(&self) -> Option<ExprView> {
        optional_expr_view(self.default_value)
    }
}

impl View for Function {
    type V = FunctionView;

    open spec fn view(&self) -> FunctionView {
        function_view(*self)
    }
}

impl View for Module {
    type V = ModuleView;

    open spec fn view(&self) -> ModuleView {
        module_view(*self)
    }
}

impl View for ItemType {
    type V = ItemTypeView;

    open spec fn view(&self) -> ItemTypeView {
        item_type_view(*self)
    }
}

impl View for Item {
    type V = ItemView;

    open spec fn view(&self) -> ItemView {
        item_view(*self)
    }
}

impl View for Scope {
    type V = ScopeView;

    open spec fn view(&self) -> ScopeView {
        scope_view(*self)
    }
}

impl Scope {
    /// A scope without any binding.
    pub fn new() -> (scope: Scope)
        ensures
            scope@ == ScopeView::empty(),
    {
        let scope = Scope {
            variables: Vec::new(),
            functions: Vec::new(),
            modules: Vec::new(),
            items: Vec::new(),
        };
        assert(scope@.variables =~= Seq::empty());
        assert(scope@.functions =~= Seq::empty());
        assert(scope@.modules =~= Seq::empty());
        assert(scope@.items =~= Seq::empty());
        scope
    }
}

impl Default for Scope {
    fn default() -> (scope: Scope)
        ensures
            scope@ == ScopeView::empty(),
    {
        Scope::new()
    }
}

/// The environments are as they were.
pub open spec fn restored(before: Context, after: Context) -> bool {
    after.outer@ == before.outer@ && after.current == before.current
}

/// `new` has been appended to the diagnostics.
pub open spec fn emitted(
    before: Seq<Diagnostic>,
    after: Seq<Diagnostic>,
    new: Seq<DiagnosticView>,
) -> bool {
    diagnostics_view(after) =~= diagnostics_view(before) + new
}

/// Resolves the value of a parameter and keeps its name.
pub fn parse_parameter_value(
    parameter: &ast::ParameterValue,
    context: &mut Context,
    diagnostics: &mut Vec<Diagnostic>,
) -> (resolved: ParameterValue)
    ensures
        resolved@ == resolve_parameter_value(parameter@, old(context).chain()).value,
        emitted(
            old(diagnostics)@,
            final(diagnostics)@,
            resolve_parameter_value(parameter@, old(context).chain()).diagnostics,
        ),
        restored(*old(context), *final(context)),
    decreases parameter, 0nat,
{
    let name = match parameter.name {
        Some(n) => Some(n.to_owned()),
        None => None,
    };
    let value = parse_expr(&parameter.value, context, diagnostics);
    ParameterValue { name, value }
}

/// Resolves the parameters of a list, in order.
pub fn parse_parameter_values(
    parameters: &Vec<ast::ParameterValue>,
    context: &mut Context,
    diagnostics: &mut Vec<Diagnostic>,
) -> (resolved: Vec<ParameterValue>)
    ensures
        parameter_values_view(resolved@) == resolve_parameter_values(
            ast::parameter_values_view(parameters@),
            old(context).chain(),
        ).value,
        emitted(
            old(diagnostics)@,
            final(diagnostics)@,
            resolve_parameter_values(
                ast::parameter_values_view(parameters@),
                old(context).chain(),
            ).diagnostics,
        ),
        restored(*old(context), *final(context)),
    decreases parameters, 0nat,
{
    let ghost start = *context;
    let ghost before = diagnostics@;
    let ghost chain = context.chain();
    let ghost views = ast::parameter_values_view(parameters@);
    let mut resolved: Vec<ParameterValue> = Vec::new();
    let mut i: usize = 0;
    proof {
        assert(views.take(0) =~= Seq::empty());
    }
    while i < parameters.len()
        invariant
            i <= parameters.len(),
            views == ast::parameter_values_view(parameters@),
            chain == start.chain(),
            restored(start, *context),
            parameter_values_view(resolved@) =~= resolve_parameter_values(
                views.take(i as int),
                chain,
            ).value,
            emitted(
                before,
                diagnostics@,
                resolve_parameter_values(views.take(i as int), chain).diagnostics,
            ),
        decreases parameters.len() - i,
    {
        proof {
            vstd::std_specs::vec::axiom_vec_index_decreases(*parameters, i as int);
            assert(views.take(i + 1).drop_last() =~= views.take(i as int));
            assert(views.take(i + 1).last() == parameters@[i as int]@);
        }
        let p = parse_parameter_value(&parameters[i], context, diagnostics);
        resolved.push(p);
        i += 1;
    }
    proof {
        assert(views.take(i as int) =~= views);
    }
    resolved
}

/// Resolves the values of the clauses of a `let`, in order, into one list.
pub fn parse_lets(
    lets: &Vec<ast::Let>,
    context: &mut Context,
    diagnostics: &mut Vec<Diagnostic>,
) -> (resolved: Vec<ParameterValue>)
    ensures
        parameter_values_view(resolved@) == resolve_lets(
            ast::lets_view(lets@),
            old(context).chain(),
        ).value,
        emitted(
            old(diagnostics)@,
            final(diagnostics)@,
            resolve_lets(ast::lets_view(lets@), old(context).chain()).diagnostics,
        ),
        restored(*old(context), *final(context)),
    decreases lets, 0nat,
{
    let ghost start = *context;
    let ghost before = diagnostics@;
    let ghost chain = context.chain();
    let ghost views = ast::lets_view(lets@);
    let mut resolved: Vec<ParameterValue> = Vec::new();
    let mut i: usize = 0;
    proof {
        assert(views.take(0) =~= Seq::empty());
    }
    while i < lets.len()
        invariant
            i <= lets.len(),
            views == ast::lets_view(lets@),
            chain == start.chain(),
            restored(start, *context),
            parameter_values_view(resolved@) =~= resolve_lets(views.take(i as int), chain).value,
            emitted(before, diagnostics@, resolve_lets(views.take(i as int), chain).diagnostics),
        decreases lets.len() - i,
    {
        proof {
            vstd::std_specs::vec::axiom_vec_index_decreases(*lets, i as int);
            assert(views.take(i + 1).drop_last() =~= views.take(i as int));
            assert(views.take(i + 1).last() == lets@[i as int]@);
        }
        let mut values = parse_parameter_values(&lets[i].vars, context, diagnostics);
        let ghost left = resolved@;
        let ghost right = values@;
        resolved.append(&mut values);
        proof {
            assert(parameter_values_view(left + right) =~= parameter_values_view(left)
                + parameter_values_view(right));
        }
        i += 1;
    }
    proof {
        assert(views.take(i as int) =~= views);
    }
    resolved
}

/// Resolves the expressions of a list, in order.
pub fn parse_exprs(
    exprs: &Vec<ast::Expr>,
    context: &mut Context,
    diagnostics: &mut Vec<Diagnostic>,
) -> (resolved: Vec<Expr>)
    ensures
        exprs_view(resolved@) == resolve_exprs(
            ast::exprs_view(exprs@),
            old(context).chain(),
        ).value,
        emitted(
            old(diagnostics)@,
            final(diagnostics)@,
            resolve_exprs(ast::exprs_view(exprs@), old(context).chain()).diagnostics,
        ),
        restored(*old(context), *final(context)),
    decreases exprs, 0nat,
{
    let ghost start = *context;
    let ghost before = diagnostics@;
    let ghost chain = context.chain();
    let ghost views = ast::exprs_view(exprs@);
    let mut resolved: Vec<Expr> = Vec::new();
    let mut i: usize = 0;
    proof {
        assert(views.take(0) =~= Seq::empty());
    }
    while i < exprs.len()
        invariant
            i <= exprs.len(),
            views == ast::exprs_view(exprs@),
            chain == start.chain(),
            restored(start, *context),
            exprs_view(resolved@) =~= resolve_exprs(views.take(i as int), chain).value,
            emitted(before, diagnostics@, resolve_exprs(views.take(i as int), chain).diagnostics),
        decreases exprs.len() - i,
    {
        proof {
            vstd::std_specs::vec::axiom_vec_index_decreases(*exprs, i as int);
            assert(views.take(i + 1).drop_last() =~= views.take(i as int));
            assert(views.take(i + 1).last() == exprs@[i as int]@);
        }
        let e = parse_expr(&exprs[i], context, diagnostics);
        resolved.push(e);
        i += 1;
    }
    proof {
        assert(views.take(i as int) =~= views);
    }
    resolved
}

/// Appends one caller-supplied variable slot per value to the current
/// environment, under the name of the value where it has one.
pub fn declare_values(values: &Vec<ast::ParameterValue>, context: &mut Context)
    ensures
        final(context).outer@ == old(context).outer@,
        final(context).current@ == old(context).current@.add_slots(
            value_names(ast::parameter_values_view(values@)),
        ),
{
    let ghost start = context.current@;
    let ghost names = value_names(ast::parameter_values_view(values@));
    let mut i: usize = 0;
    proof {
        assert(names.take(0) =~= Seq::empty());
    }
    while i < values.len()
        invariant
            i <= values.len(),
            names == value_names(ast::parameter_values_view(values@)),
            context.outer@ == old(context).outer@,
            context.current@ == start.add_slots(names.take(i as int)),
        decreases values.len() - i,
    {
        proof {
            lemma_add_slots_push(start, names.take(i as int), names[i as int]);
            assert(names.take(i + 1) =~= names.take(i as int).push(names[i as int]));
        }
        context.add_variable(values[i].name, Expr::Extern);
        i += 1;
    }
    proof {
        assert(names.take(i as int) =~= names);
    }
}

/// Appends one caller-supplied variable slot per value of the clauses of a
/// `let` to the current environment.
pub fn declare_lets(lets: &Vec<ast::Let>, context: &mut Context)
    ensures
        final(context).outer@ == old(context).outer@,
        final(context).current@ == old(context).current@.add_slots(
            let_names(ast::lets_view(lets@)),
        ),
{
    let ghost start = context.current@;
    let ghost views = ast::lets_view(lets@);
    let mut i: usize = 0;
    proof {
        assert(views.take(0) =~= Seq::empty());
    }
    while i < lets.len()
        invariant
            i <= lets.len(),
            views == ast::lets_view(lets@),
            context.outer@ == old(context).outer@,
            context.current@ == start.add_slots(let_names(views.take(i as int))),
        decreases lets.len() - i,
    {
        proof {
            assert(views.take(i + 1).drop_last() =~= views.take(i as int));
            assert(views.take(i + 1).last() == lets@[i as int]@);
            lemma_add_slots_append(
                start,
                let_names(views.take(i as int)),
                value_names(lets@[i as int]@.vars),
            );
        }
        declare_values(&lets[i].vars, context);
        i += 1;
    }
    proof {
        assert(views.take(i as int) =~= views);
    }
}

/// Appends one caller-supplied variable slot per parameter to the current
/// environment, under the name of the parameter.
pub fn declare_parameters(parameters: &Vec<ast::ParameterDefinition>, context: &mut Context)
    ensures
        final(context).outer@ == old(context).outer@,
        final(context).current@ == old(context).current@.add_slots(
            parameter_names(ast::parameter_definitions_view(parameters@)),
        ),
{
    let ghost start = context.current@;
    let ghost names = parameter_names(ast::parameter_definitions_view(parameters@));
    let mut i: usize = 0;
    proof {
        assert(names.take(0) =~= Seq::empty());
    }
    while i < parameters.len()
        invariant
            i <= parameters.len(),
            names == parameter_names(ast::parameter_definitions_view(parameters@)),
            context.outer@ == old(context).outer@,
            context.current@ == start.add_slots(names.take(i as int)),
        decreases parameters.len() - i,
    {
        proof {
            lemma_add_slots_push(start, names.take(i as int), names[i as int]);
            assert(names.take(i + 1) =~= names.take(i as int).push(names[i as int]));
        }
        context.add_variable(Some(parameters[i].name), Expr::Extern);
        i += 1;
    }
    proof {
        assert(names.take(i as int) =~= names);
    }
}

/// Resolves the default values of the parameters of a definition, in
/// order, in the current environment: that of the block which holds the
/// definition.
pub fn parse_parameter_definitions(
    parameters: &Vec<ast::ParameterDefinition>,
    context: &mut Context,
    diagnostics: &mut Vec<Diagnostic>,
) -> (defaults: Vec<Option<Expr>>)
    ensures
        optional_exprs_view(defaults@) == resolve_defaults(
            ast::parameter_definitions_view(parameters@),
            old(context).chain(),
        ).value,
        emitted(
            old(diagnostics)@,
            final(diagnostics)@,
            resolve_defaults(
                ast::parameter_definitions_view(parameters@),
                old(context).chain(),
            ).diagnostics,
        ),
        restored(*old(context), *final(context)),
{
    let ghost start = *context;
    let ghost before = diagnostics@;
    let ghost chain = context.chain();
    let ghost views = ast::parameter_definitions_view(parameters@);
    let mut defaults: Vec<Option<Expr>> = Vec::new();
    let mut i: usize = 0;
    proof {
        assert(views.take(0) =~= Seq::empty());
    }
    while i < parameters.len()
        invariant
            i <= parameters.len(),
            views == ast::parameter_definitions_view(parameters@),
            chain == start.chain(),
            restored(start, *context),
            optional_exprs_view(defaults@) =~= resolve_defaults(views.take(i as int), chain).value,
            emitted(
                before,
                diagnostics@,
                resolve_defaults(views.take(i as int), chain).diagnostics,
            ),
        decreases parameters.len() - i,
    {
        proof {
            assert(views.take(i + 1).drop_last() =~= views.take(i as int));
            assert(views.take(i + 1).last() == parameters@[i as int]@);
        }
        let default = match &parameters[i].default_value {
            Some(e) => Some(parse_expr(e, context, diagnostics)),
            None => None,
        };
        defaults.push(default);
        i += 1;
    }
    proof {
        assert(views.take(i as int) =~= views);
    }
    defaults
}

/// Resolves an expression that stands in the current environment.
pub fn parse_expr(
    expr: &ast::Expr,
    context: &mut Context,
    diagnostics: &mut Vec<Diagnostic>,
) -> (resolved: Expr)
    ensures
        resolved@ == resolve_expr(expr@, old(context).chain()).value,
        emitted(
            old(diagnostics)@,
            final(diagnostics)@,
            resolve_expr(expr@, old(context).chain()).diagnostics,
        ),
        restored(*old(context), *final(context)),
    decreases expr, 1nat,
{
    match expr {
        ast::Expr::Undef => Expr::Undef,
        ast::Expr::Boolean(b) => Expr::Boolean(*b),
        ast::Expr::Number(n) => {
            let text: &str = *n;
            Expr::Number(text.to_owned())
        },
        ast::Expr::Text(t) => {
            let text: &str = *t;
            Expr::Text(text.to_owned())
        },
        ast::Expr::Vector(values) => Expr::Vector(parse_exprs(values, context, diagnostics)),
        ast::Expr::Variable(var) => {
            let name: &str = *var;
            match context.find_var(name) {
                Some(id) => Expr::Variable(id),
                None => {
                    report(diagnostics, Diagnostic::UnresolvedVariable(name.to_owned()));
                    Expr::Undef
                },
            }
        },
        ast::Expr::Function(_) => parse_call(expr, context, diagnostics),
        ast::Expr::Echo(_, _) => parse_call(expr, context, diagnostics),
        ast::Expr::Assert(_, _) => parse_call(expr, context, diagnostics),
        ast::Expr::Let(_, _) => parse_let(expr, context, diagnostics),
        ast::Expr::ListComprehension { .. } => parse_list_comprehension(
            expr,
            context,
            diagnostics,
        ),
        ast::Expr::Negative(_) => parse_operation(expr, context, diagnostics),
        ast::Expr::Not(_) => parse_operation(expr, context, diagnostics),
        ast::Expr::Op(_, _, _) => parse_operation(expr, context, diagnostics),
        ast::Expr::Or(_, _) => parse_operation(expr, context, diagnostics),
        ast::Expr::And(_, _) => parse_operation(expr, context, diagnostics),
        ast::Expr::FieldAccess { .. } => parse_access(expr, context, diagnostics),
        ast::Expr::ArrayAccess { .. } => parse_access(expr, context, diagnostics),
        ast::Expr::Ternary { .. } => parse_choice(expr, context, diagnostics),
        ast::Expr::Range { .. } => parse_choice(expr, context, diagnostics),
    }
}

/// Resolves a function call, an `echo` or an `assert`: the forms that take
/// a list of arguments.
fn parse_call(
    expr: &ast::Expr,
    context: &mut Context,
    diagnostics: &mut Vec<Diagnostic>,
) -> (resolved: Expr)
    requires
        expr is Function || expr is Echo || expr is Assert,
    ensures
        resolved@ == resolve_expr(expr@, old(context).chain()).value,
        emitted(
            old(diagnostics)@,
            final(diagnostics)@,
            resolve_expr(expr@, old(context).chain()).diagnostics,
        ),
        restored(*old(context), *final(context)),
    decreases expr, 0nat,
{
    match expr {
        ast::Expr::Function(call) => {
            proof {
                assert(expr@ == ast::ExprView::Function(call@));
                assert(call@ == ast::FunctionCallView {
                    name: call.name@,
                    parameters: ast::parameter_values_view(call.parameters@),
                });
            }
            match context.find_function(call.name) {
                Some(id) => {
                    let parameters = parse_parameter_values(&call.parameters, context, diagnostics);
                    Expr::Function(id, parameters)
                },
                None => {
                    report(diagnostics, Diagnostic::UnresolvedFunction(call.name.to_owned()));
                    Expr::Undef
                },
            }
        },
        ast::Expr::Echo(params, inner) => {
            let params = parse_parameter_values(params, context, diagnostics);
            let inner = parse_expr(inner, context, diagnostics);
            Expr::Echo(params, Box::new(inner))
        },
        ast::Expr::Assert(params, inner) => {
            let params = parse_parameter_values(params, context, diagnostics);
            let inner = parse_expr(inner, context, diagnostics);
            Expr::Assert(params, Box::new(inner))
        },
        _ => Expr::Undef,
    }
}

/// Resolves a `let`: its values in the current environment, its body in a
/// child environment that holds one slot per value.
fn parse_let(
    expr: &ast::Expr,
    context: &mut Context,
    diagnostics: &mut Vec<Diagnostic>,
) -> (resolved: Expr)
    requires
        expr is Let,
    ensures
        resolved@ == resolve_expr(expr@, old(context).chain()).value,
        emitted(
            old(diagnostics)@,
            final(diagnostics)@,
            resolve_expr(expr@, old(context).chain()).diagnostics,
        ),
        restored(*old(context), *final(context)),
    decreases expr, 0nat,
{
    match expr {
        ast::Expr::Let(lets, inner) => {
            let values = parse_lets(lets, context, diagnostics);
            context.enter_child();
            declare_lets(lets, context);
            proof {
                assert(context.outer_chain() =~= old(context).chain());
            }
            let inner = parse_expr(inner, context, diagnostics);
            context.leave_child();
            proof {
                assert(context.outer@ =~= old(context).outer@);
            }
            Expr::Let(values, Box::new(inner))
        },
        _ => Expr::Undef,
    }
}

/// Resolves a list comprehension: the ranges of its loop variables in the
/// current environment, its body in a child environment that holds one slot
/// per `let` value, then one per loop variable. The `let` values themselves
/// are neither resolved nor kept: their slots are numbered, and an evaluator
/// fills them from the raw tree.
fn parse_list_comprehension(
    expr: &ast::Expr,
    context: &mut Context,
    diagnostics: &mut Vec<Diagnostic>,
) -> (resolved: Expr)
    requires
        expr is ListComprehension,
    ensures
        resolved@ == resolve_expr(expr@, old(context).chain()).value,
        emitted(
            old(diagnostics)@,
            final(diagnostics)@,
            resolve_expr(expr@, old(context).chain()).diagnostics,
        ),
        restored(*old(context), *final(context)),
    decreases expr, 0nat,
{
    match expr {
        ast::Expr::ListComprehension { lets, variables, body } => {
            let variables_resolved = parse_parameter_values(variables, context, diagnostics);
            context.enter_child();
            declare_lets(lets, context);
            declare_values(variables, context);
            proof {
                lemma_add_slots_append(
                    EnvironmentView::empty(),
                    let_names(ast::lets_view(lets@)),
                    value_names(ast::parameter_values_view(variables@)),
                );
                assert(context.outer_chain() =~= old(context).chain());
            }
            let body = parse_expr(body, context, diagnostics);
            context.leave_child();
            proof {
                assert(context.outer@ =~= old(context).outer@);
            }
            let lets_resolved: Vec<Expr> = Vec::new();
            proof {
                assert(exprs_view(lets_resolved@) =~= Seq::empty());
            }
            Expr::ListComprehension {
                lets: lets_resolved,
                variables: variables_resolved,
                body: Box::new(body),
            }
        },
        _ => Expr::Undef,
    }
}

/// Resolves the operands of a unary or binary operation, from left to
/// right.
fn parse_operation(
    expr: &ast::Expr,
    context: &mut Context,
    diagnostics: &mut Vec<Diagnostic>,
) -> (resolved: Expr)
    requires
        expr is Negative || expr is Not || expr is Op || expr is Or || expr is And,
    ensures
        resolved@ == resolve_expr(expr@, old(context).chain()).value,
        emitted(
            old(diagnostics)@,
            final(diagnostics)@,
            resolve_expr(expr@, old(context).chain()).diagnostics,
        ),
        restored(*old(context), *final(context)),
    decreases expr, 0nat,
{
    match expr {
        ast::Expr::Negative(inner) => Expr::Negative(
            Box::new(parse_expr(inner, context, diagnostics)),
        ),
        ast::Expr::Not(inner) => Expr::Not(Box::new(parse_expr(inner, context, diagnostics))),
        ast::Expr::Op(a, op, b) => {
            let a = parse_expr(a, context, diagnostics);
            let b = parse_expr(b, context, diagnostics);
            Expr::Op(Box::new(a), *op, Box::new(b))
        },
        ast::Expr::Or(a, b) => {
            let a = parse_expr(a, context, diagnostics);
            let b = parse_expr(b, context, diagnostics);
            Expr::Or(Box::new(a), Box::new(b))
        },
        ast::Expr::And(a, b) => {
            let a = parse_expr(a, context, diagnostics);
            let b = parse_expr(b, context, diagnostics);
            Expr::And(Box::new(a), Box::new(b))
        },
        _ => Expr::Undef,
    }
}

/// Resolves an access to a field or to an element. A field that is no axis
/// makes the whole access undefined, and its parent is not looked at.
fn parse_access(
    expr: &ast::Expr,
    context: &mut Context,
    diagnostics: &mut Vec<Diagnostic>,
) -> (resolved: Expr)
    requires
        expr is FieldAccess || expr is ArrayAccess,
    ensures
        resolved@ == resolve_expr(expr@, old(context).chain()).value,
        emitted(
            old(diagnostics)@,
            final(diagnostics)@,
            resolve_expr(expr@, old(context).chain()).diagnostics,
        ),
        restored(*old(context), *final(context)),
    decreases expr, 0nat,
{
    match expr {
        ast::Expr::FieldAccess { parent, field } => {
            let name: &str = *field;
            match Axis::from_str(name) {
                Some(axis) => {
                    let parent = parse_expr(parent, context, diagnostics);
                    Expr::FieldAccess { parent: Box::new(parent), field: axis }
                },
                None => {
                    report(diagnostics, Diagnostic::InvalidFieldAccess(name.to_owned()));
                    Expr::Undef
                },
            }
        },
        ast::Expr::ArrayAccess { array, index } => {
            let array = parse_expr(array, context, diagnostics);
            let index = parse_expr(index, context, diagnostics);
            Expr::ArrayAccess { array: Box::new(array), index: Box::new(index) }
        },
        _ => Expr::Undef,
    }
}

/// Resolves the parts of a conditional or of a range, from left to right.
fn parse_choice(
    expr: &ast::Expr,
    context: &mut Context,
    diagnostics: &mut Vec<Diagnostic>,
) -> (resolved: Expr)
    requires
        expr is Ternary || expr is Range,
    ensures
        resolved@ == resolve_expr(expr@, old(context).chain()).value,
        emitted(
            old(diagnostics)@,
            final(diagnostics)@,
            resolve_expr(expr@, old(context).chain()).diagnostics,
        ),
        restored(*old(context), *final(context)),
    decreases expr, 0nat,
{
    match expr {
        ast::Expr::Ternary { condition, if_true, if_false } => {
            let condition = parse_expr(condition, context, diagnostics);
            let if_true = parse_expr(if_true, context, diagnostics);
            let if_false = parse_expr(if_false, context, diagnostics);
            Expr::Ternary {
                condition: Box::new(condition),
                if_true: Box::new(if_true),
                if_false: Box::new(if_false),
            }
        },
        ast::Expr::Range { start, end, increment } => {
            let start = parse_expr(start, context, diagnostics);
            let end = parse_expr(end, context, diagnostics);
            let increment = match increment {
                Some(step) => Some(Box::new(parse_expr(step, context, diagnostics))),
                None => None,
            };
            Expr::Range { start: Box::new(start), end: Box::new(end), increment }
        },
        _ => Expr::Undef,
    }
}

/// What a call leaves of the context when it resolves `s` in the current
/// environment: the enclosing environments as they were, and the current one
/// after the statement.
pub open spec fn advanced(
    before: Context,
    after: Context,
    to: EnvironmentView,
) -> bool {
    after.outer@ == before.outer@ && after.current@ == to
}

/// Resolves a statement in the current environment: declares what the
/// statement declares, and resolves the definitions it holds.
pub fn parse_statement(
    statement: &ast::Statement,
    context: &mut Context,
    diagnostics: &mut Vec<Diagnostic>,
)
    ensures
        advanced(
            *old(context),
            *final(context),
            resolve_statement(statement@, old(context).outer_chain(), old(context).current@).value,
        ),
        emitted(
            old(diagnostics)@,
            final(diagnostics)@,
            resolve_statement(
                statement@,
                old(context).outer_chain(),
                old(context).current@,
            ).diagnostics,
        ),
    decreases statement, 0nat,
{
    match statement {
        ast::Statement::VariableDeclaration(name, expr) => {
            // The initializer cannot see the slot that it is about to fill.
            let value = parse_expr(expr, context, diagnostics);
            context.add_variable(Some(*name), value);
        },
        ast::Statement::ModuleDefinition { name, args, body } => {
            context.add_module(*name);
            let default_values = parse_parameter_definitions(args, context, diagnostics);
            let ghost chain = context.chain();
            context.enter_child();
            declare_parameters(args, context);
            proof {
                assert(context.outer_chain() =~= chain);
            }
            parse_scope(body, context, diagnostics);
            let scope = context.leave_child();
            proof {
                assert(context.outer@ =~= old(context).outer@);
            }
            context.finish_module(Module { default_values, body: scope });
        },
        ast::Statement::FunctionDefinition(name, params, body) => {
            context.add_function(*name);
            let default_values = parse_parameter_definitions(params, context, diagnostics);
            let ghost chain = context.chain();
            context.enter_child();
            declare_parameters(params, context);
            proof {
                assert(context.outer_chain() =~= chain);
            }
            let body = parse_expr(body, context, diagnostics);
            let scope = context.leave_child();
            proof {
                assert(context.outer@ =~= old(context).outer@);
            }
            context.finish_function(Function { default_values, body, scope });
        },
        ast::Statement::StatementList(list) => {
            parse_statements(list, context, diagnostics);
        },
        ast::Statement::If { if_true, if_false, .. } => {
            parse_statements(if_true, context, diagnostics);
            parse_statements(if_false, context, diagnostics);
        },
        ast::Statement::For { body, .. } => {
            parse_statements(body, context, diagnostics);
        },
        // These bind no name here: they are left to the evaluator.
        ast::Statement::NoOp => {},
        ast::Statement::Include(_) => {},
        ast::Statement::Use(_) => {},
        ast::Statement::ModuleCall(_) => {},
        ast::Statement::Comment(_) => {},
    }
}

/// Resolves the statements of a list, in order, in the current environment.
pub fn parse_statements(
    statements: &Vec<ast::Statement>,
    context: &mut Context,
    diagnostics: &mut Vec<Diagnostic>,
)
    ensures
        advanced(
            *old(context),
            *final(context),
            resolve_statements(
                ast::statements_view(statements@),
                old(context).outer_chain(),
                old(context).current@,
            ).value,
        ),
        emitted(
            old(diagnostics)@,
            final(diagnostics)@,
            resolve_statements(
                ast::statements_view(statements@),
                old(context).outer_chain(),
                old(context).current@,
            ).diagnostics,
        ),
    decreases statements, 0nat,
{
    let ghost outer = context.outer_chain();
    let ghost env = context.current@;
    let ghost before = diagnostics@;
    let ghost views = ast::statements_view(statements@);
    let mut i: usize = 0;
    proof {
        assert(views.take(0) =~= Seq::empty());
    }
    while i < statements.len()
        invariant
            i <= statements.len(),
            views == ast::statements_view(statements@),
            outer == old(context).outer_chain(),
            advanced(
                *old(context),
                *context,
                resolve_statements(views.take(i as int), outer, env).value,
            ),
            emitted(
                before,
                diagnostics@,
                resolve_statements(views.take(i as int), outer, env).diagnostics,
            ),
        decreases statements.len() - i,
    {
        proof {
            vstd::std_specs::vec::axiom_vec_index_decreases(*statements, i as int);
            assert(views.take(i + 1).drop_last() =~= views.take(i as int));
            assert(views.take(i + 1).last() == statements@[i as int]@);
        }
        parse_statement(&statements[i], context, diagnostics);
        i += 1;
    }
    proof {
        assert(views.take(i as int) =~= views);
    }
}

/// Resolves the body of a block in the environment entered for it.
pub fn parse_scope(
    statement: &ast::Statement,
    context: &mut Context,
    diagnostics: &mut Vec<Diagnostic>,
)
    ensures
        advanced(
            *old(context),
            *final(context),
            resolve_statement(statement@, old(context).outer_chain(), old(context).current@).value,
        ),
        emitted(
            old(diagnostics)@,
            final(diagnostics)@,
            resolve_statement(
                statement@,
                old(context).outer_chain(),
                old(context).current@,
            ).diagnostics,
        ),
    decreases statement, 1nat,
{
    parse_statement(statement, context, diagnostics)
}

/// `scope` is the scope of the document `statements`, and the diagnostics
/// of its resolution are what `after` holds more than `before`.
pub open spec fn parsed(
    statements: Seq<ast::Statement>,
    before: Seq<Diagnostic>,
    scope: Scope,
    after: Seq<Diagnostic>,
) -> bool {
    &&& scope@ == resolve_document(ast::statements_view(statements)).value
    &&& emitted(before, after, resolve_document(ast::statements_view(statements)).diagnostics)
}

/// Resolves a document: binds every name of `statements` to a slot and
/// returns the scope of the top level. Diagnostics are appended to
/// `diagnostics`, in the order in which the references occur.
pub fn parse(statements: &[ast::Statement], diagnostics: &mut Vec<Diagnostic>) -> (scope: Scope)
    ensures
        parsed(statements@, old(diagnostics)@, scope, final(diagnostics)@),
{
    let mut context = Context::root();
    let ghost outer = context.outer_chain();
    let ghost env = context.current@;
    let ghost before = diagnostics@;
    let ghost views = ast::statements_view(statements@);
    let mut i: usize = 0;
    proof {
        assert(views.take(0) =~= Seq::empty());
        assert(outer =~= Seq::empty());
    }
    while i < statements.len()
        invariant
            i <= statements.len(),
            views == ast::statements_view(statements@),
            outer == context.outer_chain(),
            context.current@ == resolve_statements(views.take(i as int), outer, env).value,
            emitted(
                before,
                diagnostics@,
                resolve_statements(views.take(i as int), outer, env).diagnostics,
            ),
        decreases statements.len() - i,
    {
        proof {
            assert(views.take(i + 1).drop_last() =~= views.take(i as int));
            assert(views.take(i + 1).last() == statements@[i as int]@);
        }
        parse_statement(&statements[i], &mut context, diagnostics);
        i += 1;
    }
    proof {
        assert(views.take(i as int) =~= views);
    }
    context.into_scope()
}

} // verus!
