//! Laws of name resolution, proved of [`crate::resolution`] for every tree
//! and every chain of environments.

use crate::ast;
use crate::context::{declare_names, lookup, Bindings, EnvironmentView, Kind};
use crate::diagnostic::{diagnostics_view, Diagnostic, DiagnosticView};
use crate::parser::{axis_of, parsed, Axis, ExprView, Scope, SlotAddress};
use crate::resolution::{
    clean, parameter_names, resolve_defaults, resolve_document, resolve_expr, resolve_statement,
    resolve_statements, unresolved,
};
use vstd::prelude::*;

verus! {

/// A lookup finds the nearest environment that binds the name: the address
/// it gives points at an environment of the chain that binds the name to the
/// index given, no environment nearer to the reference binds the name, and
/// there is no address only where no environment binds the name at all.
pub proof fn law_lookup_finds_the_nearest(chain: Seq<Bindings>, kind: Kind, name: Seq<char>)
    ensures
        match lookup(chain, kind, name) {
            Some(address) => {
                &&& address.depth < chain.len()
                &&& chain[chain.len() - 1 - address.depth].table(kind).contains_key(name)
                &&& chain[chain.len() - 1 - address.depth].table(kind)[name] == address.index
                &&& forall|nearer: int|
                    0 <= nearer < address.depth ==> !(#[trigger] chain[chain.len() - 1
                        - nearer]).table(kind).contains_key(name)
            },
            None => forall|i: int|
                0 <= i < chain.len() ==> !(#[trigger] chain[i]).table(kind).contains_key(name),
        },
    decreases chain.len(),
{
    if chain.len() > 0 && !chain.last().table(kind).contains_key(name) {
        let rest = chain.drop_last();
        law_lookup_finds_the_nearest(rest, kind, name);
        match lookup(rest, kind, name) {
            Some(inner) => {
                let address = lookup(chain, kind, name).unwrap();
                assert(address.depth == inner.depth + 1);
                assert(chain[chain.len() - 1 - address.depth] == rest[rest.len() - 1
                    - inner.depth]);
                assert forall|nearer: int| 0 <= nearer < address.depth implies !(
                #[trigger] chain[chain.len() - 1 - nearer]).table(kind).contains_key(name) by {
                    if nearer > 0 {
                        assert(chain[chain.len() - 1 - nearer] == rest[rest.len() - 1 - (nearer
                            - 1)]);
                    }
                }
            },
            None => {
                assert forall|i: int| 0 <= i < chain.len() implies !(
                #[trigger] chain[i]).table(kind).contains_key(name) by {
                    if i < rest.len() {
                        assert(chain[i] == rest[i]);
                    }
                }
            },
        }
    }
}

/// A name bound by an environment and by none of the
/// `inner` environments entered since resolves, from the innermost of them,
/// to the slot that the binding environment gives it, at a depth that is
/// the number of environments entered since.
pub proof fn law_nested_scope_depth(
    outer: Seq<Bindings>,
    binding: Bindings,
    inner: Seq<Bindings>,
    kind: Kind,
    name: Seq<char>,
)
    requires
        binding.table(kind).contains_key(name),
        forall|i: int| 0 <= i < inner.len() ==> !(#[trigger] inner[i]).table(kind).contains_key(name),
    ensures
        lookup(outer.push(binding) + inner, kind, name) == Some(
            SlotAddress { depth: inner.len(), index: binding.table(kind)[name] },
        ),
    decreases inner.len(),
{
    let chain = outer.push(binding) + inner;
    if inner.len() == 0 {
        assert(chain =~= outer.push(binding));
    } else {
        law_nested_scope_depth(outer, binding, inner.drop_last(), kind, name);
        assert(chain.drop_last() =~= outer.push(binding) + inner.drop_last());
        assert(chain.last() == inner.last());
    }
}

/// Appending caller-supplied slots touches the variables only, and adds as
/// many slots as there are names.
pub proof fn law_add_slots_frame(env: EnvironmentView, names: Seq<Option<Seq<char>>>)
    ensures
        env.add_slots(names).bindings.functions == env.bindings.functions,
        env.add_slots(names).bindings.modules == env.bindings.modules,
        env.add_slots(names).scope.functions == env.scope.functions,
        env.add_slots(names).scope.modules == env.scope.modules,
        env.add_slots(names).scope.items == env.scope.items,
        env.add_slots(names).scope.variables.len() == env.scope.variables.len() + names.len(),
    decreases names.len(),
{
    if names.len() > 0 {
        law_add_slots_frame(env, names.drop_last());
    }
}

/// The environment made of a list of names binds each name to the position
/// of its last occurrence, holds one caller-supplied slot per entry, and
/// binds no function and no module.
pub proof fn law_of_names(names: Seq<Option<Seq<char>>>)
    ensures
        EnvironmentView::of_names(names).bindings == (Bindings {
            variables: declare_names(names),
            functions: Map::empty(),
            modules: Map::empty(),
        }),
        EnvironmentView::of_names(names).scope.variables == Seq::new(
            names.len(),
            |i: int| ExprView::Extern,
        ),
        EnvironmentView::of_names(names).scope.functions == Seq::<crate::parser::FunctionView>::empty(),
        EnvironmentView::of_names(names).scope.modules == Seq::<crate::parser::ModuleView>::empty(),
        EnvironmentView::of_names(names).scope.items == Seq::<crate::parser::ItemView>::empty(),
    decreases names.len(),
{
    law_add_slots_frame(EnvironmentView::empty(), names);
    if names.len() > 0 {
        law_of_names(names.drop_last());
        law_add_slots_frame(EnvironmentView::empty(), names.drop_last());
        assert(EnvironmentView::of_names(names).scope.variables =~= Seq::new(
            names.len(),
            |i: int| ExprView::Extern,
        ));
    } else {
        assert(EnvironmentView::of_names(names).scope.variables =~= Seq::new(
            names.len(),
            |i: int| ExprView::Extern,
        ));
    }
}

/// Where a name is declared more than once in a list, the last declaration
/// wins: a name is bound exactly if some entry holds it, and then to the
/// position of the last entry that does.
pub proof fn law_declare_names_last_wins(names: Seq<Option<Seq<char>>>, name: Seq<char>)
    ensures
        declare_names(names).contains_key(name) <==> exists|i: int|
            0 <= i < names.len() && #[trigger] names[i] == Some(name),
        declare_names(names).contains_key(name) ==> {
            let slot = declare_names(names)[name] as int;
            &&& 0 <= slot < names.len()
            &&& names[slot] == Some(name)
            &&& forall|later: int| slot < later < names.len() ==> #[trigger] names[later] != Some(name)
        },
    decreases names.len(),
{
    if names.len() > 0 {
        let rest = names.drop_last();
        law_declare_names_last_wins(rest, name);
        if names.last() == Some(name) {
            assert(names[names.len() - 1] == Some(name));
        } else {
            if declare_names(rest).contains_key(name) {
                let i = choose|i: int| 0 <= i < rest.len() && #[trigger] rest[i] == Some(name);
                assert(names[i] == Some(name));
                let slot = declare_names(names)[name] as int;
                assert(names[slot] == rest[slot]);
                assert forall|later: int| slot < later < names.len() implies #[trigger] names[later]
                    != Some(name) by {
                    if later < rest.len() {
                        assert(names[later] == rest[later]);
                    }
                }
            } else {
                assert forall|i: int| 0 <= i < names.len() implies #[trigger] names[i] != Some(
                    name,
                ) by {
                    if i < rest.len() {
                        assert(names[i] == rest[i]);
                    }
                }
            }
        }
    }
}

/// A variable declaration makes its name reachable at depth 0, at the slot
/// that it appends, whatever stood under that name before; the slot holds the
/// initializer as resolved before the declaration, and every other name
/// resolves as it did.
pub proof fn law_declaration_is_reachable(
    outer: Seq<Bindings>,
    env: EnvironmentView,
    name: Seq<char>,
    initializer: ast::ExprView,
    other: Seq<char>,
)
    ensures
        ({
            let after = resolve_statement(
                ast::StatementView::VariableDeclaration(name, initializer),
                outer,
                env,
            ).value;
            &&& lookup(outer.push(after.bindings), Kind::Variable, name) == Some(
                SlotAddress { depth: 0, index: env.scope.variables.len() },
            )
            &&& after.scope.variables.len() == env.scope.variables.len() + 1
            &&& after.scope.variables[env.scope.variables.len() as int] == resolve_expr(
                initializer,
                outer.push(env.bindings),
            ).value
            &&& other != name ==> lookup(outer.push(after.bindings), Kind::Variable, other)
                == lookup(outer.push(env.bindings), Kind::Variable, other)
        }),
{
    let after = resolve_statement(
        ast::StatementView::VariableDeclaration(name, initializer),
        outer,
        env,
    ).value;
    assert(outer.push(after.bindings).drop_last() =~= outer);
    assert(outer.push(env.bindings).drop_last() =~= outer);
}

/// Of two declarations of one name in one scope, the second is
/// the one that a later reference reaches. The slot of the first is still
/// there, before that of the second.
pub proof fn law_shadowing(
    outer: Seq<Bindings>,
    env: EnvironmentView,
    name: Seq<char>,
    first: ast::ExprView,
    second: ast::ExprView,
)
    ensures
        ({
            let after_first = resolve_statement(
                ast::StatementView::VariableDeclaration(name, first),
                outer,
                env,
            ).value;
            let after_second = resolve_statement(
                ast::StatementView::VariableDeclaration(name, second),
                outer,
                after_first,
            ).value;
            let slot = env.scope.variables.len();
            &&& resolve_expr(ast::ExprView::Variable(name), outer.push(after_second.bindings))
                == clean(ExprView::Variable(SlotAddress { depth: 0, index: slot + 1 }))
            &&& after_second.scope.variables.len() == slot + 2
            &&& after_second.scope.variables[slot as int] == resolve_expr(
                first,
                outer.push(env.bindings),
            ).value
            &&& after_second.scope.variables[slot as int + 1] == resolve_expr(
                second,
                outer.push(after_first.bindings),
            ).value
        }),
{
    let after_first = resolve_statement(
        ast::StatementView::VariableDeclaration(name, first),
        outer,
        env,
    ).value;
    law_declaration_is_reachable(outer, env, name, first, name);
    law_declaration_is_reachable(outer, after_first, name, second, name);
}

/// A variable bound in the block that holds a function definition, and not
/// named by one of the function's parameters, is reached from the function's
/// body at depth 1, not at depth 0.
pub proof fn law_variable_seen_from_function_body(
    outer: Seq<Bindings>,
    env: EnvironmentView,
    function: Seq<char>,
    params: Seq<ast::ParameterDefinitionView>,
    variable: Seq<char>,
)
    requires
        env.bindings.variables.contains_key(variable),
        forall|i: int| 0 <= i < params.len() ==> (#[trigger] params[i]).name != variable,
    ensures
        ({
            let after = resolve_statement(
                ast::StatementView::FunctionDefinition(
                    function,
                    params,
                    ast::ExprView::Variable(variable),
                ),
                outer,
                env,
            ).value;
            &&& after.scope.functions.len() == env.scope.functions.len() + 1
            &&& after.scope.functions[env.scope.functions.len() as int].body == ExprView::Variable(
                SlotAddress { depth: 1, index: env.bindings.variables[variable] },
            )
        }),
{
    let declared = env.add_function(function);
    let names = parameter_names(params);
    let child = EnvironmentView::of_names(names);
    law_of_names(names);
    law_declare_names_last_wins(names, variable);
    assert(!child.bindings.variables.contains_key(variable)) by {
        if child.bindings.variables.contains_key(variable) {
            let i = choose|i: int| 0 <= i < names.len() && #[trigger] names[i] == Some(variable);
            assert(params[i].name == variable);
        }
    }
    law_nested_scope_depth(outer, declared.bindings, seq![child.bindings], Kind::Variable, variable);
    assert(outer.push(declared.bindings) + seq![child.bindings] =~= outer.push(
        declared.bindings,
    ).push(child.bindings));
}

/// A call of a function by its own name, in the
/// body of its definition, resolves to the function's own slot in the block
/// that holds the definition, one scope outward, and the definition fills
/// that very slot.
pub proof fn law_recursive_self_reference(
    outer: Seq<Bindings>,
    env: EnvironmentView,
    name: Seq<char>,
    params: Seq<ast::ParameterDefinitionView>,
    arguments: Seq<ast::ParameterValueView>,
)
    ensures
        ({
            let call = ast::ExprView::Function(
                ast::FunctionCallView { name, parameters: arguments },
            );
            let after = resolve_statement(
                ast::StatementView::FunctionDefinition(name, params, call),
                outer,
                env,
            ).value;
            let slot = env.scope.functions.len();
            &&& after.scope.functions.len() == slot + 1
            &&& after.scope.functions[slot as int].body matches ExprView::Function(address, _)
            &&& address == SlotAddress { depth: 1, index: slot }
            &&& lookup(outer.push(after.bindings), Kind::Function, name) == Some(
                SlotAddress { depth: 0, index: slot },
            )
        }),
{
    let declared = env.add_function(name);
    let names = parameter_names(params);
    let child = EnvironmentView::of_names(names);
    law_of_names(names);
    law_nested_scope_depth(outer, declared.bindings, seq![child.bindings], Kind::Function, name);
    assert(outer.push(declared.bindings) + seq![child.bindings] =~= outer.push(
        declared.bindings,
    ).push(child.bindings));
    assert(outer.push(declared.bindings).drop_last() =~= outer);
}

/// The default values of a list of parameters are resolved one by one in
/// the chain given: there is one entry per parameter, and it is the
/// parameter's default value resolved in that chain, or nothing where the
/// parameter has none.
pub proof fn law_defaults_pointwise(
    params: Seq<ast::ParameterDefinitionView>,
    chain: Seq<Bindings>,
    i: int,
)
    requires
        0 <= i < params.len(),
    ensures
        resolve_defaults(params, chain).value.len() == params.len(),
        resolve_defaults(params, chain).value[i] == match params[i].default_value {
            Some(e) => Some(resolve_expr(e, chain).value),
            None => None,
        },
    decreases params.len(),
{
    law_defaults_length(params, chain);
    if i < params.len() - 1 {
        law_defaults_pointwise(params.drop_last(), chain, i);
    }
}

/// There is one resolved default per parameter.
pub proof fn law_defaults_length(params: Seq<ast::ParameterDefinitionView>, chain: Seq<Bindings>)
    ensures
        resolve_defaults(params, chain).value.len() == params.len(),
    decreases params.len(),
{
    if params.len() > 0 {
        law_defaults_length(params.drop_last(), chain);
    }
}

/// A diagnostic of one default value is a diagnostic of the list.
pub proof fn law_defaults_report(
    params: Seq<ast::ParameterDefinitionView>,
    chain: Seq<Bindings>,
    i: int,
    diagnostic: DiagnosticView,
)
    requires
        0 <= i < params.len(),
        params[i].default_value matches Some(e) && resolve_expr(e, chain).diagnostics.contains(
            diagnostic,
        ),
    ensures
        resolve_defaults(params, chain).diagnostics.contains(diagnostic),
    decreases params.len(),
{
    let init = resolve_defaults(params.drop_last(), chain).diagnostics;
    if i == params.len() - 1 {
        let last = resolve_expr(params[i].default_value->0, chain).diagnostics;
        let j = choose|j: int| 0 <= j < last.len() && last[j] == diagnostic;
        assert((init + last)[init.len() + j] == diagnostic);
    } else {
        law_defaults_report(params.drop_last(), chain, i, diagnostic);
        let j = choose|j: int| 0 <= j < init.len() && init[j] == diagnostic;
        match params.last().default_value {
            Some(e) => {
                assert((init + resolve_expr(e, chain).diagnostics)[j] == diagnostic);
            },
            None => {},
        }
    }
}

/// The default values of a function are resolved in
/// the block that holds the definition, after the function's name has been
/// bound there; the parameters are not in sight. So a default that names a
/// variable of the enclosing block reaches it at depth 0, and a default that
/// names a parameter that no enclosing block binds is undefined and is
/// reported as an unresolved variable.
pub proof fn law_default_value_scoping(
    outer: Seq<Bindings>,
    env: EnvironmentView,
    name: Seq<char>,
    params: Seq<ast::ParameterDefinitionView>,
    body: ast::ExprView,
    i: int,
    referenced: Seq<char>,
)
    requires
        0 <= i < params.len(),
        params[i].default_value == Some(ast::ExprView::Variable(referenced)),
    ensures
        ({
            let definition = resolve_statement(
                ast::StatementView::FunctionDefinition(name, params, body),
                outer,
                env,
            );
            let function = definition.value.scope.functions[env.scope.functions.len() as int];
            let enclosing = outer.push(env.bindings);
            &&& function.default_values.len() == params.len()
            &&& function.default_values[i] == Some(
                resolve_expr(ast::ExprView::Variable(referenced), enclosing).value,
            )
            &&& lookup(enclosing, Kind::Variable, referenced) is None ==> {
                &&& function.default_values[i] == Some(ExprView::Undef)
                &&& definition.diagnostics.contains(DiagnosticView::UnresolvedVariable(referenced))
            }
            &&& env.bindings.variables.contains_key(referenced) ==> function.default_values[i]
                == Some(
                ExprView::Variable(
                    SlotAddress { depth: 0, index: env.bindings.variables[referenced] },
                ),
            )
        }),
{
    let declared = env.add_function(name);
    let chain = outer.push(declared.bindings);
    let enclosing = outer.push(env.bindings);
    law_defaults_pointwise(params, chain, i);
    assert(chain.drop_last() =~= outer);
    assert(enclosing.drop_last() =~= outer);
    if lookup(enclosing, Kind::Variable, referenced) is None {
        let diagnostic = DiagnosticView::UnresolvedVariable(referenced);
        assert(seq![diagnostic][0] == diagnostic);
        law_defaults_report(params, chain, i, diagnostic);
        let defaults = resolve_defaults(params, chain).diagnostics;
        let child = EnvironmentView::of_names(parameter_names(params));
        let rest = resolve_expr(body, chain.push(child.bindings)).diagnostics;
        let j = choose|j: int| 0 <= j < defaults.len() && defaults[j] == diagnostic;
        assert((defaults + rest)[j] == diagnostic);
    }
}

/// A function definition fills the slot that its name is bound to: the
/// name is reachable at depth 0 from what follows the definition, and the
/// slot holds the body as resolved one scope inward, among the parameters.
pub proof fn law_function_definition_fills_its_slot(
    outer: Seq<Bindings>,
    env: EnvironmentView,
    name: Seq<char>,
    params: Seq<ast::ParameterDefinitionView>,
    body: ast::ExprView,
)
    ensures
        ({
            let after = resolve_statement(
                ast::StatementView::FunctionDefinition(name, params, body),
                outer,
                env,
            ).value;
            let slot = env.scope.functions.len();
            let inside = outer.push(env.add_function(name).bindings).push(
                EnvironmentView::of_names(parameter_names(params)).bindings,
            );
            &&& after.scope.functions.len() == slot + 1
            &&& lookup(outer.push(after.bindings), Kind::Function, name) == Some(
                SlotAddress { depth: 0, index: slot },
            )
            &&& after.scope.functions[slot as int].body == resolve_expr(body, inside).value
            &&& after.scope.functions[slot as int].scope.variables.len() == params.len()
            &&& after.scope.variables == env.scope.variables
            &&& after.scope.modules == env.scope.modules
        }),
{
    law_add_slots_frame(EnvironmentView::empty(), parameter_names(params));
    assert(outer.push(env.add_function(name).bindings).drop_last() =~= outer);
}

/// A module definition fills the slot that its name is bound to: the name
/// is reachable at depth 0 from what follows the definition, and the slot
/// holds what the body declares in an environment of its own, after the
/// parameters.
pub proof fn law_module_definition_fills_its_slot(
    outer: Seq<Bindings>,
    env: EnvironmentView,
    name: Seq<char>,
    args: Seq<ast::ParameterDefinitionView>,
    body: ast::StatementView,
)
    ensures
        ({
            let after = resolve_statement(
                ast::StatementView::ModuleDefinition { name, args, body: Box::new(body) },
                outer,
                env,
            ).value;
            let slot = env.scope.modules.len();
            &&& after.scope.modules.len() == slot + 1
            &&& lookup(outer.push(after.bindings), Kind::Module, name) == Some(
                SlotAddress { depth: 0, index: slot },
            )
            &&& after.scope.modules[slot as int].body == resolve_statement(
                body,
                outer.push(env.add_module(name).bindings),
                EnvironmentView::of_names(parameter_names(args)),
            ).value.scope
            &&& after.scope.variables == env.scope.variables
            &&& after.scope.functions == env.scope.functions
        }),
{
    assert(outer.push(env.add_module(name).bindings).drop_last() =~= outer);
}

/// A variable that no environment of the
/// chain binds resolves to the undefined value and leaves exactly one
/// diagnostic, which names it. A declaration initialized with it still
/// appends its slot.
pub proof fn law_unresolved_variable_recovers(
    outer: Seq<Bindings>,
    env: EnvironmentView,
    declared: Seq<char>,
    missing: Seq<char>,
)
    requires
        lookup(outer.push(env.bindings), Kind::Variable, missing) is None,
    ensures
        resolve_expr(ast::ExprView::Variable(missing), outer.push(env.bindings)) == unresolved(
            DiagnosticView::UnresolvedVariable(missing),
        ),
        resolve_statement(
            ast::StatementView::VariableDeclaration(declared, ast::ExprView::Variable(missing)),
            outer,
            env,
        ) == (crate::resolution::Resolved {
            value: env.add_variable(Some(declared), ExprView::Undef),
            diagnostics: seq![DiagnosticView::UnresolvedVariable(missing)],
        }),
{
}

/// An unbound function is recovered from in the same way, and its
/// arguments are not looked at.
pub proof fn law_unresolved_function_recovers(
    chain: Seq<Bindings>,
    name: Seq<char>,
    arguments: Seq<ast::ParameterValueView>,
)
    requires
        lookup(chain, Kind::Function, name) is None,
    ensures
        resolve_expr(
            ast::ExprView::Function(ast::FunctionCallView { name, parameters: arguments }),
            chain,
        ) == unresolved(DiagnosticView::UnresolvedFunction(name)),
{
}

/// The three axis labels, and only they, denote an axis.
pub proof fn law_axis_labels(field: Seq<char>)
    ensures
        axis_of("x"@) == Some(Axis::X),
        axis_of("y"@) == Some(Axis::Y),
        axis_of("z"@) == Some(Axis::Z),
        axis_of(field) is Some <==> field == "x"@ || field == "y"@ || field == "z"@,
{
    reveal_strlit("x");
    reveal_strlit("y");
    reveal_strlit("z");
    assert("x"@ =~= seq!['x']);
    assert("y"@ =~= seq!['y']);
    assert("z"@ =~= seq!['z']);
    assert(seq!['x'][0] != seq!['y'][0]);
    assert(seq!['x'][0] != seq!['z'][0]);
    assert(seq!['y'][0] != seq!['z'][0]);
}

/// An access to an axis keeps the axis and resolves
/// its parent; an access to any other field is undefined and leaves exactly
/// one diagnostic, which names the field.
pub proof fn law_field_access(parent: ast::ExprView, field: Seq<char>, chain: Seq<Bindings>)
    ensures
        ({
            let access = ast::ExprView::FieldAccess { parent: Box::new(parent), field };
            match axis_of(field) {
                Some(axis) => resolve_expr(access, chain) == (crate::resolution::Resolved {
                    value: ExprView::FieldAccess {
                        parent: Box::new(resolve_expr(parent, chain).value),
                        field: axis,
                    },
                    diagnostics: resolve_expr(parent, chain).diagnostics,
                }),
                None => resolve_expr(access, chain) == unresolved(
                    DiagnosticView::InvalidFieldAccess(field),
                ),
            }
        }),
{
}

impl EnvironmentView {
    /// Every name of the environment is bound to a slot that the
    /// environment's scope holds.
    pub open spec fn well_formed(self) -> bool {
        &&& forall|name: Seq<char>| #[trigger]
            self.bindings.variables.contains_key(name) ==> self.bindings.variables[name]
                < self.scope.variables.len()
        &&& forall|name: Seq<char>| #[trigger]
            self.bindings.functions.contains_key(name) ==> self.bindings.functions[name]
                < self.scope.functions.len()
        &&& forall|name: Seq<char>| #[trigger]
            self.bindings.modules.contains_key(name) ==> self.bindings.modules[name]
                < self.scope.modules.len()
    }
}

/// Slots and names stay in step: a statement resolved in an environment in
/// which every name has its slot leaves such an environment.
pub proof fn law_statement_keeps_slots(
    s: ast::StatementView,
    outer: Seq<Bindings>,
    env: EnvironmentView,
)
    requires
        env.well_formed(),
    ensures
        resolve_statement(s, outer, env).value.well_formed(),
    decreases s,
{
    match s {
        ast::StatementView::StatementList(list) => law_statements_keep_slots(list, outer, env),
        ast::StatementView::If { if_true, if_false, .. } => {
            law_statements_keep_slots(if_true, outer, env);
            law_statements_keep_slots(
                if_false,
                outer,
                resolve_statements(if_true, outer, env).value,
            );
        },
        ast::StatementView::For { body, .. } => law_statements_keep_slots(
            body,
            outer,
            env,
        ),
        _ => {},
    }
}

/// A list of statements resolved in an environment in which every name has
/// its slot leaves such an environment.
pub proof fn law_statements_keep_slots(
    ss: Seq<ast::StatementView>,
    outer: Seq<Bindings>,
    env: EnvironmentView,
)
    requires
        env.well_formed(),
    ensures
        resolve_statements(ss, outer, env).value.well_formed(),
    decreases ss,
{
    if ss.len() > 0 {
        law_statements_keep_slots(ss.drop_last(), outer, env);
        law_statement_keeps_slots(
            ss.last(),
            outer,
            resolve_statements(ss.drop_last(), outer, env).value,
        );
    }
}

/// In the scope of a document every name that the top level binds has its
/// slot.
pub proof fn law_document_keeps_slots(statements: Seq<ast::StatementView>)
    ensures
        resolve_statements(statements, Seq::empty(), EnvironmentView::empty()).value.well_formed(),
        resolve_document(statements).value == resolve_statements(
            statements,
            Seq::empty(),
            EnvironmentView::empty(),
        ).value.scope,
{
    law_statements_keep_slots(statements, Seq::empty(), EnvironmentView::empty());
}

/// Resolving the same tree twice gives the same scope and the same
/// diagnostics: the slots are numbered by the order of the declarations and
/// by nothing else.
pub proof fn law_resolution_is_repeatable(
    first_tree: Seq<ast::Statement>,
    second_tree: Seq<ast::Statement>,
    first_scope: Scope,
    second_scope: Scope,
    first_log: Seq<Diagnostic>,
    second_log: Seq<Diagnostic>,
)
    requires
        ast::statements_view(first_tree) == ast::statements_view(second_tree),
        parsed(first_tree, Seq::empty(), first_scope, first_log),
        parsed(second_tree, Seq::empty(), second_scope, second_log),
    ensures
        first_scope@ == second_scope@,
        diagnostics_view(first_log) == diagnostics_view(second_log),
{
    assert(diagnostics_view(Seq::<Diagnostic>::empty()) =~= Seq::empty());
}

} // verus!
