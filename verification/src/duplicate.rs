//! `Clone` for the raw tree and for the resolved one: a clone has the value
//! of what it was cloned from.

use crate::ast;
use crate::diagnostic::Diagnostic;
use crate::parser;
use vstd::prelude::*;

verus! {

fn clone_raw_exprs<'a>(list: &Vec<ast::Expr<'a>>) -> (copy: Vec<ast::Expr<'a>>)
    ensures
        ast::exprs_view(copy@) == ast::exprs_view(list@),
    decreases list,
{
    let mut copy: Vec<ast::Expr<'a>> = Vec::new();
    let mut i: usize = 0;
    while i < list.len()
        invariant
            i <= list.len(),
            copy@.len() == i,
            forall|j: int| 0 <= j < i ==> (#[trigger] copy@[j])@ == list@[j]@,
        decreases list.len() - i,
    {
        proof {
            vstd::std_specs::vec::axiom_vec_index_decreases(*list, i as int);
        }
        let item = list[i].clone();
        copy.push(item);
        i += 1;
    }
    proof {
        assert(ast::exprs_view(copy@) =~= ast::exprs_view(list@));
    }
    copy
}

fn clone_raw_values<'a>(list: &Vec<ast::ParameterValue<'a>>) -> (copy: Vec<
    ast::ParameterValue<'a>,
>)
    ensures
        ast::parameter_values_view(copy@) == ast::parameter_values_view(list@),
    decreases list,
{
    let mut copy: Vec<ast::ParameterValue<'a>> = Vec::new();
    let mut i: usize = 0;
    while i < list.len()
        invariant
            i <= list.len(),
            copy@.len() == i,
            forall|j: int| 0 <= j < i ==> (#[trigger] copy@[j])@ == list@[j]@,
        decreases list.len() - i,
    {
        proof {
            vstd::std_specs::vec::axiom_vec_index_decreases(*list, i as int);
        }
        let item = list[i].clone();
        copy.push(item);
        i += 1;
    }
    proof {
        assert(ast::parameter_values_view(copy@) =~= ast::parameter_values_view(list@));
    }
    copy
}

fn clone_raw_lets<'a>(list: &Vec<ast::Let<'a>>) -> (copy: Vec<ast::Let<'a>>)
    ensures
        ast::lets_view(copy@) == ast::lets_view(list@),
    decreases list,
{
    let mut copy: Vec<ast::Let<'a>> = Vec::new();
    let mut i: usize = 0;
    while i < list.len()
        invariant
            i <= list.len(),
            copy@.len() == i,
            forall|j: int| 0 <= j < i ==> (#[trigger] copy@[j])@ == list@[j]@,
        decreases list.len() - i,
    {
        proof {
            vstd::std_specs::vec::axiom_vec_index_decreases(*list, i as int);
        }
        let item = list[i].clone();
        copy.push(item);
        i += 1;
    }
    proof {
        assert(ast::lets_view(copy@) =~= ast::lets_view(list@));
    }
    copy
}

fn clone_raw_definitions<'a>(list: &Vec<ast::ParameterDefinition<'a>>) -> (copy: Vec<
    ast::ParameterDefinition<'a>,
>)
    ensures
        ast::parameter_definitions_view(copy@) == ast::parameter_definitions_view(list@),
{
    let mut copy: Vec<ast::ParameterDefinition<'a>> = Vec::new();
    let mut i: usize = 0;
    while i < list.len()
        invariant
            i <= list.len(),
            copy@.len() == i,
            forall|j: int| 0 <= j < i ==> (#[trigger] copy@[j])@ == list@[j]@,
        decreases list.len() - i,
    {
        let item = list[i].clone();
        copy.push(item);
        i += 1;
    }
    proof {
        assert(ast::parameter_definitions_view(copy@) =~= ast::parameter_definitions_view(
            list@,
        ));
    }
    copy
}

fn clone_raw_statements<'a>(list: &Vec<ast::Statement<'a>>) -> (copy: Vec<ast::Statement<'a>>)
    ensures
        ast::statements_view(copy@) == ast::statements_view(list@),
    decreases list,
{
    let mut copy: Vec<ast::Statement<'a>> = Vec::new();
    let mut i: usize = 0;
    while i < list.len()
        invariant
            i <= list.len(),
            copy@.len() == i,
            forall|j: int| 0 <= j < i ==> (#[trigger] copy@[j])@ == list@[j]@,
        decreases list.len() - i,
    {
        proof {
            vstd::std_specs::vec::axiom_vec_index_decreases(*list, i as int);
        }
        let item = list[i].clone();
        copy.push(item);
        i += 1;
    }
    proof {
        assert(ast::statements_view(copy@) =~= ast::statements_view(list@));
    }
    copy
}

impl<'input> Clone for ast::Expr<'input> {
    fn clone(&self) -> (copy: Self)
        ensures
            copy@ == self@,
        decreases self,
    {
        match self {
            ast::Expr::Undef => ast::Expr::Undef,
            ast::Expr::Boolean(b) => ast::Expr::Boolean(*b),
            ast::Expr::Number(n) => ast::Expr::Number(*n),
            ast::Expr::Text(t) => ast::Expr::Text(*t),
            ast::Expr::Negative(inner) => ast::Expr::Negative(Box::new((&**inner).clone())),
            ast::Expr::Not(inner) => ast::Expr::Not(Box::new((&**inner).clone())),
            ast::Expr::Variable(name) => ast::Expr::Variable(*name),
            ast::Expr::Function(call) => ast::Expr::Function(call.clone()),
            ast::Expr::Echo(params, inner) => ast::Expr::Echo(
                clone_raw_values(params),
                Box::new((&**inner).clone()),
            ),
            ast::Expr::Assert(params, inner) => ast::Expr::Assert(
                clone_raw_values(params),
                Box::new((&**inner).clone()),
            ),
            ast::Expr::Let(lets, inner) => ast::Expr::Let(
                clone_raw_lets(lets),
                Box::new((&**inner).clone()),
            ),
            ast::Expr::ListComprehension { lets, variables, body } => {
                ast::Expr::ListComprehension {
                    lets: clone_raw_lets(lets),
                    variables: clone_raw_values(variables),
                    body: Box::new((&**body).clone()),
                }
            },
            ast::Expr::Vector(values) => ast::Expr::Vector(clone_raw_exprs(values)),
            ast::Expr::Op(a, op, b) => ast::Expr::Op(
                Box::new((&**a).clone()),
                *op,
                Box::new((&**b).clone()),
            ),
            ast::Expr::Or(a, b) => ast::Expr::Or(
                Box::new((&**a).clone()),
                Box::new((&**b).clone()),
            ),
            ast::Expr::And(a, b) => ast::Expr::And(
                Box::new((&**a).clone()),
                Box::new((&**b).clone()),
            ),
            ast::Expr::FieldAccess { parent, field } => ast::Expr::FieldAccess {
                parent: Box::new((&**parent).clone()),
                field: *field,
            },
            ast::Expr::ArrayAccess { array, index } => ast::Expr::ArrayAccess {
                array: Box::new((&**array).clone()),
                index: Box::new((&**index).clone()),
            },
            ast::Expr::Ternary { condition, if_true, if_false } => ast::Expr::Ternary {
                condition: Box::new((&**condition).clone()),
                if_true: Box::new((&**if_true).clone()),
                if_false: Box::new((&**if_false).clone()),
            },
            ast::Expr::Range { start, end, increment } => ast::Expr::Range {
                start: Box::new((&**start).clone()),
                end: Box::new((&**end).clone()),
                increment: match increment {
                    Some(step) => Some(Box::new((&**step).clone())),
                    None => None,
                },
            },
        }
    }
}

impl<'input> Clone for ast::ParameterValue<'input> {
    fn clone(&self) -> (copy: Self)
        ensures
            copy@ == self@,
        decreases self,
    {
        ast::ParameterValue { name: self.name, value: self.value.clone() }
    }
}

impl<'input> Clone for ast::FunctionCall<'input> {
    fn clone(&self) -> (copy: Self)
        ensures
            copy@ == self@,
        decreases self,
    {
        ast::FunctionCall { name: self.name, parameters: clone_raw_values(&self.parameters) }
    }
}

impl<'input> Clone for ast::Let<'input> {
    fn clone(&self) -> (copy: Self)
        ensures
            copy@ == self@,
        decreases self,
    {
        ast::Let { vars: clone_raw_values(&self.vars) }
    }
}

impl<'input> Clone for ast::ParameterDefinition<'input> {
    fn clone(&self) -> (copy: Self)
        ensures
            copy@ == self@,
    {
        ast::ParameterDefinition {
            name: self.name,
            default_value: match &self.default_value {
                Some(e) => Some(e.clone()),
                None => None,
            },
        }
    }
}

impl<'input> Clone for ast::ModuleCall<'input> {
    fn clone(&self) -> (copy: Self)
        ensures
            copy@ == self@,
        decreases self,
    {
        ast::ModuleCall {
            function: self.function,
            params: clone_raw_values(&self.params),
            children: clone_raw_statements(&self.children),
            modifier: self.modifier,
        }
    }
}

impl<'input> Clone for ast::Statement<'input> {
    fn clone(&self) -> (copy: Self)
        ensures
            copy@ == self@,
        decreases self,
    {
        match self {
            ast::Statement::VariableDeclaration(name, e) => ast::Statement::VariableDeclaration(
                *name,
                e.clone(),
            ),
            ast::Statement::StatementList(list) => ast::Statement::StatementList(
                clone_raw_statements(list),
            ),
            ast::Statement::NoOp => ast::Statement::NoOp,
            ast::Statement::ModuleDefinition { name, args, body } => {
                ast::Statement::ModuleDefinition {
                    name: *name,
                    args: clone_raw_definitions(args),
                    body: Box::new((&**body).clone()),
                }
            },
            ast::Statement::FunctionDefinition(name, params, body) => {
                ast::Statement::FunctionDefinition(
                    *name,
                    clone_raw_definitions(params),
                    body.clone(),
                )
            },
            ast::Statement::Include(path) => ast::Statement::Include(*path),
            ast::Statement::Use(path) => ast::Statement::Use(*path),
            ast::Statement::ModuleCall(call) => ast::Statement::ModuleCall(call.clone()),
            ast::Statement::For { variables, body, modifier } => ast::Statement::For {
                variables: clone_raw_values(variables),
                body: clone_raw_statements(body),
                modifier: *modifier,
            },
            ast::Statement::Comment(text) => ast::Statement::Comment(*text),
            ast::Statement::If { condition, if_true, if_false } => ast::Statement::If {
                condition: condition.clone(),
                if_true: clone_raw_statements(if_true),
                if_false: clone_raw_statements(if_false),
            },
        }
    }
}

fn clone_exprs(list: &Vec<parser::Expr>) -> (copy: Vec<parser::Expr>)
    ensures
        parser::exprs_view(copy@) == parser::exprs_view(list@),
    decreases list,
{
    let mut copy: Vec<parser::Expr> = Vec::new();
    let mut i: usize = 0;
    while i < list.len()
        invariant
            i <= list.len(),
            copy@.len() == i,
            forall|j: int| 0 <= j < i ==> (#[trigger] copy@[j])@ == list@[j]@,
        decreases list.len() - i,
    {
        proof {
            vstd::std_specs::vec::axiom_vec_index_decreases(*list, i as int);
        }
        let item = list[i].clone();
        copy.push(item);
        i += 1;
    }
    proof {
        assert(parser::exprs_view(copy@) =~= parser::exprs_view(list@));
    }
    copy
}

fn clone_values(list: &Vec<parser::ParameterValue>) -> (copy: Vec<parser::ParameterValue>)
    ensures
        parser::parameter_values_view(copy@) == parser::parameter_values_view(list@),
    decreases list,
{
    let mut copy: Vec<parser::ParameterValue> = Vec::new();
    let mut i: usize = 0;
    while i < list.len()
        invariant
            i <= list.len(),
            copy@.len() == i,
            forall|j: int| 0 <= j < i ==> (#[trigger] copy@[j])@ == list@[j]@,
        decreases list.len() - i,
    {
        proof {
            vstd::std_specs::vec::axiom_vec_index_decreases(*list, i as int);
        }
        let item = list[i].clone();
        copy.push(item);
        i += 1;
    }
    proof {
        assert(parser::parameter_values_view(copy@) =~= parser::parameter_values_view(list@));
    }
    copy
}

fn clone_defaults(list: &Vec<Option<parser::Expr>>) -> (copy: Vec<Option<parser::Expr>>)
    ensures
        parser::optional_exprs_view(copy@) == parser::optional_exprs_view(list@),
{
    let mut copy: Vec<Option<parser::Expr>> = Vec::new();
    let mut i: usize = 0;
    while i < list.len()
        invariant
            i <= list.len(),
            copy@.len() == i,
            forall|j: int|
                0 <= j < i ==> parser::optional_expr_view(#[trigger] copy@[j])
                    == parser::optional_expr_view(list@[j]),
        decreases list.len() - i,
    {
        let item = match &list[i] {
            Some(e) => Some(e.clone()),
            None => None,
        };
        copy.push(item);
        i += 1;
    }
    proof {
        assert(parser::optional_exprs_view(copy@) =~= parser::optional_exprs_view(list@));
    }
    copy
}

fn clone_functions(list: &Vec<parser::Function>) -> (copy: Vec<parser::Function>)
    ensures
        parser::functions_view(copy@) == parser::functions_view(list@),
    decreases list,
{
    let mut copy: Vec<parser::Function> = Vec::new();
    let mut i: usize = 0;
    while i < list.len()
        invariant
            i <= list.len(),
            copy@.len() == i,
            forall|j: int| 0 <= j < i ==> (#[trigger] copy@[j])@ == list@[j]@,
        decreases list.len() - i,
    {
        proof {
            vstd::std_specs::vec::axiom_vec_index_decreases(*list, i as int);
        }
        let item = list[i].clone();
        copy.push(item);
        i += 1;
    }
    proof {
        assert(parser::functions_view(copy@) =~= parser::functions_view(list@));
    }
    copy
}

fn clone_modules(list: &Vec<parser::Module>) -> (copy: Vec<parser::Module>)
    ensures
        parser::modules_view(copy@) == parser::modules_view(list@),
    decreases list,
{
    let mut copy: Vec<parser::Module> = Vec::new();
    let mut i: usize = 0;
    while i < list.len()
        invariant
            i <= list.len(),
            copy@.len() == i,
            forall|j: int| 0 <= j < i ==> (#[trigger] copy@[j])@ == list@[j]@,
        decreases list.len() - i,
    {
        proof {
            vstd::std_specs::vec::axiom_vec_index_decreases(*list, i as int);
        }
        let item = list[i].clone();
        copy.push(item);
        i += 1;
    }
    proof {
        assert(parser::modules_view(copy@) =~= parser::modules_view(list@));
    }
    copy
}

fn clone_items(list: &Vec<parser::Item>) -> (copy: Vec<parser::Item>)
    ensures
        parser::items_view(copy@) == parser::items_view(list@),
    decreases list,
{
    let mut copy: Vec<parser::Item> = Vec::new();
    let mut i: usize = 0;
    while i < list.len()
        invariant
            i <= list.len(),
            copy@.len() == i,
            forall|j: int| 0 <= j < i ==> (#[trigger] copy@[j])@ == list@[j]@,
        decreases list.len() - i,
    {
        proof {
            vstd::std_specs::vec::axiom_vec_index_decreases(*list, i as int);
        }
        let item = list[i].clone();
        copy.push(item);
        i += 1;
    }
    proof {
        assert(parser::items_view(copy@) =~= parser::items_view(list@));
    }
    copy
}

impl Clone for parser::Expr {
    fn clone(&self) -> (copy: Self)
        ensures
            copy@ == self@,
        decreases self,
    {
        match self {
            parser::Expr::Undef => parser::Expr::Undef,
            parser::Expr::Extern => parser::Expr::Extern,
            parser::Expr::Boolean(b) => parser::Expr::Boolean(*b),
            parser::Expr::Number(n) => parser::Expr::Number(n.clone()),
            parser::Expr::Text(t) => parser::Expr::Text(t.clone()),
            parser::Expr::Negative(inner) => parser::Expr::Negative(
                Box::new((&**inner).clone()),
            ),
            parser::Expr::Not(inner) => parser::Expr::Not(Box::new((&**inner).clone())),
            parser::Expr::Variable(id) => parser::Expr::Variable(*id),
            parser::Expr::Echo(params, inner) => parser::Expr::Echo(
                clone_values(params),
                Box::new((&**inner).clone()),
            ),
            parser::Expr::Assert(params, inner) => parser::Expr::Assert(
                clone_values(params),
                Box::new((&**inner).clone()),
            ),
            parser::Expr::Let(params, inner) => parser::Expr::Let(
                clone_values(params),
                Box::new((&**inner).clone()),
            ),
            parser::Expr::Function(id, params) => parser::Expr::Function(
                *id,
                clone_values(params),
            ),
            parser::Expr::ListComprehension { lets, variables, body } => {
                parser::Expr::ListComprehension {
                    lets: clone_exprs(lets),
                    variables: clone_values(variables),
                    body: Box::new((&**body).clone()),
                }
            },
            parser::Expr::Vector(values) => parser::Expr::Vector(clone_exprs(values)),
            parser::Expr::Op(a, op, b) => parser::Expr::Op(
                Box::new((&**a).clone()),
                *op,
                Box::new((&**b).clone()),
            ),
            parser::Expr::Or(a, b) => parser::Expr::Or(
                Box::new((&**a).clone()),
                Box::new((&**b).clone()),
            ),
            parser::Expr::And(a, b) => parser::Expr::And(
                Box::new((&**a).clone()),
                Box::new((&**b).clone()),
            ),
            parser::Expr::FieldAccess { parent, field } => parser::Expr::FieldAccess {
                parent: Box::new((&**parent).clone()),
                field: *field,
            },
            parser::Expr::ArrayAccess { array, index } => parser::Expr::ArrayAccess {
                array: Box::new((&**array).clone()),
                index: Box::new((&**index).clone()),
            },
            parser::Expr::Ternary { condition, if_true, if_false } => parser::Expr::Ternary {
                condition: Box::new((&**condition).clone()),
                if_true: Box::new((&**if_true).clone()),
                if_false: Box::new((&**if_false).clone()),
            },
            parser::Expr::Range { start, end, increment } => parser::Expr::Range {
                start: Box::new((&**start).clone()),
                end: Box::new((&**end).clone()),
                increment: match increment {
                    Some(step) => Some(Box::new((&**step).clone())),
                    None => None,
                },
            },
        }
    }
}

impl Clone for parser::ParameterValue {
    fn clone(&self) -> (copy: Self)
        ensures
            copy@ == self@,
        decreases self,
    {
        parser::ParameterValue {
            name: match &self.name {
                Some(n) => Some(n.clone()),
                None => None,
            },
            value: self.value.clone(),
        }
    }
}

impl Clone for parser::ParameterDefinition {
    fn clone(&self) -> (copy: Self)
        ensures
            copy@ == self@,
    {
        parser::ParameterDefinition {
            default_value: match &self.default_value {
                Some(e) => Some(e.clone()),
                None => None,
            },
        }
    }
}

impl Clone for parser::ItemType {
    fn clone(&self) -> (copy: Self)
        ensures
            copy@ == self@,
    {
        match self {
            parser::ItemType::User(id) => parser::ItemType::User(*id),
            parser::ItemType::Extern(name) => parser::ItemType::Extern(name.clone()),
        }
    }
}

impl Clone for parser::Function {
    fn clone(&self) -> (copy: Self)
        ensures
            copy@ == self@,
        decreases self,
    {
        parser::Function {
            default_values: clone_defaults(&self.default_values),
            scope: self.scope.clone(),
            body: self.body.clone(),
        }
    }
}

impl Clone for parser::Module {
    fn clone(&self) -> (copy: Self)
        ensures
            copy@ == self@,
        decreases self,
    {
        parser::Module {
            default_values: clone_defaults(&self.default_values),
            body: self.body.clone(),
        }
    }
}

impl Clone for parser::Item {
    fn clone(&self) -> (copy: Self)
        ensures
            copy@ == self@,
        decreases self,
    {
        parser::Item {
            ty: self.ty.clone(),
            params: clone_exprs(&self.params),
            child: self.child.clone(),
        }
    }
}

impl Clone for parser::Scope {
    fn clone(&self) -> (copy: Self)
        ensures
            copy@ == self@,
        decreases self,
    {
        parser::Scope {
            variables: clone_exprs(&self.variables),
            functions: clone_functions(&self.functions),
            modules: clone_modules(&self.modules),
            items: clone_items(&self.items),
        }
    }
}

impl Clone for Diagnostic {
    fn clone(&self) -> (copy: Self)
        ensures
            copy@ == self@,
    {
        match self {
            Diagnostic::UnresolvedVariable(name) => Diagnostic::UnresolvedVariable(name.clone()),
            Diagnostic::UnresolvedFunction(name) => Diagnostic::UnresolvedFunction(name.clone()),
            Diagnostic::InvalidFieldAccess(name) => Diagnostic::InvalidFieldAccess(name.clone()),
        }
    }
}

} // verus!
