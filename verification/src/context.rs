//! The chain of binding environments that drives name resolution.
//!
//! One environment exists per lexical block being resolved. It maps the
//! names declared in the block to their slots, one numbering per kind of
//! binding, and gathers what the block declares into a [`Scope`]. The
//! environments of the enclosing blocks are kept on a stack and are only read.

use crate::parser::{
    Expr, ExprView, Function, FunctionView, Id, Module, ModuleView, Scope, ScopeView, SlotAddress,
};
use vstd::hash_map::StringHashMap;
use vstd::prelude::*;

verus! {

/// The three kinds of binding. Each has a numbering space of its own.
#[derive(Clone, Copy, Debug, PartialEq, Eq)]
pub enum Kind {
    Variable,
    Function,
    Module,
}

/// The names that one lexical block binds, each with the index of its slot.
pub struct Bindings {
    pub variables: Map<Seq<char>, nat>,
    pub functions: Map<Seq<char>, nat>,
    pub modules: Map<Seq<char>, nat>,
}

impl Bindings {
    /// No name is bound.
    pub open spec fn empty() -> Bindings {
        Bindings { variables: Map::empty(), functions: Map::empty(), modules: Map::empty() }
    }

    /// The names of one kind.
    pub open spec fn table(self, kind: Kind) -> Map<Seq<char>, nat> {
        match kind {
            Kind::Variable => self.variables,
            Kind::Function => self.functions,
            Kind::Module => self.modules,
        }
    }

    /// Binds `name` to the slot `index`. An earlier binding of the same name
    /// and kind is no longer reachable by that name.
    pub open spec fn declare(self, kind: Kind, name: Seq<char>, index: nat) -> Bindings {
        match kind {
            Kind::Variable => Bindings { variables: self.variables.insert(name, index), ..self },
            Kind::Function => Bindings { functions: self.functions.insert(name, index), ..self },
            Kind::Module => Bindings { modules: self.modules.insert(name, index), ..self },
        }
    }
}

/// Moves an address `by` scopes outward.
pub open spec fn raise(address: Option<SlotAddress>, by: nat) -> Option<SlotAddress> {
    match address {
        Some(a) => Some(SlotAddress { depth: a.depth + by, index: a.index }),
        None => None,
    }
}

/// The address of `name` seen from the innermost environment of `chain`,
/// which is its last entry: the slot that the nearest environment binding
/// the name gives it, and the number of environments walked outward to reach
/// it. `None` where no environment of the chain binds the name.
pub open spec fn lookup(chain: Seq<Bindings>, kind: Kind, name: Seq<char>) -> Option<SlotAddress>
    decreases chain.len(),
{
    if chain.len() == 0 {
        None
    } else if chain.last().table(kind).contains_key(name) {
        Some(SlotAddress { depth: 0, index: chain.last().table(kind)[name] })
    } else {
        raise(lookup(chain.drop_last(), kind, name), 1)
    }
}

/// The variable names that a list of declarations binds, the `i`-th
/// declaration taking slot `i` whether it has a name or not. Where a name
/// occurs twice, the later declaration wins.
pub open spec fn declare_names(names: Seq<Option<Seq<char>>>) -> Map<Seq<char>, nat>
    decreases names.len(),
{
    if names.len() == 0 {
        Map::empty()
    } else {
        match names.last() {
            Some(name) => declare_names(names.drop_last()).insert(name, (names.len() - 1) as nat),
            None => declare_names(names.drop_last()),
        }
    }
}

/// Mathematical value of an [`Environment`].
pub struct EnvironmentView {
    pub bindings: Bindings,
    pub scope: ScopeView,
}

impl EnvironmentView {
    /// The environment of a block in which nothing has been declared yet.
    pub open spec fn empty() -> EnvironmentView {
        EnvironmentView { bindings: Bindings::empty(), scope: ScopeView::empty() }
    }

    /// Appends a variable slot holding `value`, and binds `name` to it if
    /// there is one.
    pub open spec fn add_variable(self, name: Option<Seq<char>>, value: ExprView) -> EnvironmentView {
        EnvironmentView {
            bindings: match name {
                Some(n) => self.bindings.declare(Kind::Variable, n, self.scope.variables.len()),
                None => self.bindings,
            },
            scope: ScopeView { variables: self.scope.variables.push(value), ..self.scope },
        }
    }

    /// Binds `name` to the function slot that the next call of
    /// [`Self::finish_function`] fills.
    pub open spec fn add_function(self, name: Seq<char>) -> EnvironmentView {
        EnvironmentView {
            bindings: self.bindings.declare(Kind::Function, name, self.scope.functions.len()),
            ..self
        }
    }

    /// Appends a function slot holding `function`.
    pub open spec fn finish_function(self, function: FunctionView) -> EnvironmentView {
        EnvironmentView {
            scope: ScopeView { functions: self.scope.functions.push(function), ..self.scope },
            ..self
        }
    }

    /// Binds `name` to the module slot that the next call of
    /// [`Self::finish_module`] fills.
    pub open spec fn add_module(self, name: Seq<char>) -> EnvironmentView {
        EnvironmentView {
            bindings: self.bindings.declare(Kind::Module, name, self.scope.modules.len()),
            ..self
        }
    }

    /// Appends a module slot holding `module`.
    pub open spec fn finish_module(self, module: ModuleView) -> EnvironmentView {
        EnvironmentView {
            scope: ScopeView { modules: self.scope.modules.push(module), ..self.scope },
            ..self
        }
    }

    /// Appends one caller-supplied variable slot per entry of `names`, in
    /// order, and binds each name that is there to its slot.
    pub open spec fn add_slots(self, names: Seq<Option<Seq<char>>>) -> EnvironmentView
        decreases names.len(),
    {
        if names.len() == 0 {
            self
        } else {
            self.add_slots(names.drop_last()).add_variable(names.last(), ExprView::Extern)
        }
    }

    /// The environment that holds one caller-supplied variable slot per
    /// entry of `names`, and nothing else.
    pub open spec fn of_names(names: Seq<Option<Seq<char>>>) -> EnvironmentView {
        EnvironmentView::empty().add_slots(names)
    }
}

/// Slots appended in two runs are the slots of the two lists appended in one.
pub proof fn lemma_add_slots_append(
    env: EnvironmentView,
    first: Seq<Option<Seq<char>>>,
    second: Seq<Option<Seq<char>>>,
)
    ensures
        env.add_slots(first + second) == env.add_slots(first).add_slots(second),
    decreases second.len(),
{
    if second.len() == 0 {
        assert(first + second =~= first);
    } else {
        lemma_add_slots_append(env, first, second.drop_last());
        assert((first + second).drop_last() =~= first + second.drop_last());
        assert((first + second).last() == second.last());
    }
}

/// One more slot: the step by which a loop over declarations advances.
pub proof fn lemma_add_slots_push(
    env: EnvironmentView,
    names: Seq<Option<Seq<char>>>,
    name: Option<Seq<char>>,
)
    ensures
        env.add_slots(names.push(name)) == env.add_slots(names).add_variable(
            name,
            ExprView::Extern,
        ),
{
    assert(names.push(name).drop_last() =~= names);
}

/// The slots of a name table, as natural numbers.
pub open spec fn slots(table: Map<Seq<char>, usize>) -> Map<Seq<char>, nat> {
    Map::new(|name: Seq<char>| table.contains_key(name), |name: Seq<char>| table[name] as nat)
}

/// A binding environment.
pub struct Environment {
    /// What the block has declared so far.
    pub scope: Scope,
    pub variables_map: StringHashMap<usize>,
    pub functions_map: StringHashMap<usize>,
    pub modules_map: StringHashMap<usize>,
}

impl View for Environment {
    type V = EnvironmentView;

    open spec fn view(&self) -> EnvironmentView {
        EnvironmentView {
            bindings: Bindings {
                variables: slots(self.variables_map@),
                functions: slots(self.functions_map@),
                modules: slots(self.modules_map@),
            },
            scope: self.scope@,
        }
    }
}

impl Environment {
    /// The environment of a block in which nothing has been declared yet.
    pub fn new() -> (env: Environment)
        ensures
            env@ == EnvironmentView::empty(),
    {
        let env = Environment {
            scope: Scope::new(),
            variables_map: StringHashMap::new(),
            functions_map: StringHashMap::new(),
            modules_map: StringHashMap::new(),
        };
        assert(env@.bindings.variables =~= Map::empty());
        assert(env@.bindings.functions =~= Map::empty());
        assert(env@.bindings.modules =~= Map::empty());
        env
    }

    /// The slot that this environment itself gives to `name`, if any.
    pub fn slot(&self, kind: Kind, name: &str) -> (slot: Option<usize>)
        ensures
            match slot {
                Some(index) => self@.bindings.table(kind).contains_key(name@)
                    && self@.bindings.table(kind)[name@] == index,
                None => !self@.bindings.table(kind).contains_key(name@),
            },
    {
        let found = match kind {
            Kind::Variable => self.variables_map.get(name),
            Kind::Function => self.functions_map.get(name),
            Kind::Module => self.modules_map.get(name),
        };
        match found {
            Some(index) => Some(*index),
            None => None,
        }
    }
}

/// The bindings of a stack of environments, outermost first.
pub open spec fn bindings_of(frames: Seq<Environment>) -> Seq<Bindings> {
    Seq::new(frames.len(), |i: int| frames[i]@.bindings)
}

/// The state of a resolution pass: the environment of the block being
/// resolved, and those of the blocks around it.
pub struct Context {
    /// The environments of the enclosing blocks, outermost first.
    pub outer: Vec<Environment>,
    /// The environment of the block being resolved.
    pub current: Environment,
}

impl Context {
    /// The bindings of the enclosing blocks, outermost first.
    pub open spec fn outer_chain(&self) -> Seq<Bindings> {
        bindings_of(self.outer@)
    }

    /// Every environment that a name can be found in, innermost last.
    pub open spec fn chain(&self) -> Seq<Bindings> {
        self.outer_chain().push(self.current@.bindings)
    }

    /// The context of a document: one environment, without parent.
    pub fn root() -> (context: Context)
        ensures
            context.outer@.len() == 0,
            context.current@ == EnvironmentView::empty(),
    {
        Context { outer: Vec::new(), current: Environment::new() }
    }

    /// Enters a block: the current environment becomes the parent of a new,
    /// empty one.
    pub fn enter_child(&mut self)
        ensures
            final(self).outer@ == old(self).outer@.push(old(self).current),
            final(self).current@ == EnvironmentView::empty(),
    {
        let mut child = Environment::new();
        core::mem::swap(&mut self.current, &mut child);
        self.outer.push(child);
    }

    /// Leaves the block entered last and returns what it declared. Its
    /// parent is the current environment again.
    pub fn leave_child(&mut self) -> (scope: Scope)
        requires
            old(self).outer@.len() > 0,
        ensures
            final(self).outer@ == old(self).outer@.drop_last(),
            final(self).current == old(self).outer@.last(),
            scope == old(self).current.scope,
    {
        let mut parent = self.outer.pop().unwrap();
        core::mem::swap(&mut self.current, &mut parent);
        parent.scope
    }

    /// Ends the pass and returns what the current block declared.
    pub fn into_scope(self) -> (scope: Scope)
        ensures
            scope == self.current.scope,
    {
        self.current.scope
    }

    /// Declares a variable in the current environment: a new slot that
    /// holds `value`, reachable by `name` if there is one. Returns the index
    /// of the slot.
    pub fn add_variable(&mut self, name: Option<&str>, value: Expr) -> (id: usize)
        ensures
            id == old(self).current@.scope.variables.len(),
            final(self).outer@ == old(self).outer@,
            final(self).current@ == old(self).current@.add_variable(
                crate::ast::name_view(name),
                value@,
            ),
    {
        let id = self.current.scope.variables.len();
        match name {
            Some(n) => {
                self.current.variables_map.insert(n.to_owned(), id);
            },
            None => {},
        }
        self.current.scope.variables.push(value);
        proof {
            let after = old(self).current@.add_variable(crate::ast::name_view(name), value@);
            assert(self.current@.bindings.variables =~= after.bindings.variables);
            assert(self.current@.scope.variables =~= after.scope.variables);
        }
        id
    }

    /// Registers the name of a function in the current environment, ahead
    /// of its definition, so that the definition can refer to itself. Returns
    /// the index of the slot that the definition will fill.
    pub fn add_function(&mut self, name: &str) -> (id: usize)
        ensures
            id == old(self).current@.scope.functions.len(),
            final(self).outer@ == old(self).outer@,
            final(self).current@ == old(self).current@.add_function(name@),
    {
        let id = self.current.scope.functions.len();
        self.current.functions_map.insert(name.to_owned(), id);
        proof {
            let after = old(self).current@.add_function(name@);
            assert(self.current@.bindings.functions =~= after.bindings.functions);
        }
        id
    }

    /// Stores the definition of the function registered last.
    pub fn finish_function(&mut self, function: Function)
        ensures
            final(self).outer@ == old(self).outer@,
            final(self).current@ == old(self).current@.finish_function(function@),
    {
        self.current.scope.functions.push(function);
        proof {
            let after = old(self).current@.finish_function(function@);
            assert(self.current@.scope.functions =~= after.scope.functions);
        }
    }

    /// Registers the name of a module in the current environment, ahead of
    /// its definition, so that the definition can refer to itself. Returns
    /// the index of the slot that the definition will fill.
    pub fn add_module(&mut self, name: &str) -> (id: usize)
        ensures
            id == old(self).current@.scope.modules.len(),
            final(self).outer@ == old(self).outer@,
            final(self).current@ == old(self).current@.add_module(name@),
    {
        let id = self.current.scope.modules.len();
        self.current.modules_map.insert(name.to_owned(), id);
        proof {
            let after = old(self).current@.add_module(name@);
            assert(self.current@.bindings.modules =~= after.bindings.modules);
        }
        id
    }

    /// Stores the definition of the module registered last.
    pub fn finish_module(&mut self, module: Module)
        ensures
            final(self).outer@ == old(self).outer@,
            final(self).current@ == old(self).current@.finish_module(module@),
    {
        self.current.scope.modules.push(module);
        proof {
            let after = old(self).current@.finish_module(module@);
            assert(self.current@.scope.modules =~= after.scope.modules);
        }
    }

    /// The address of the variable `name`, seen from the current block.
    pub fn find_var(&self, name: &str) -> (found: Option<Id>)
        ensures
            id_view(found) == lookup(self.chain(), Kind::Variable, name@),
    {
        find_id(name, self, Kind::Variable)
    }

    /// The address of the module `name`, seen from the current block.
    pub fn find_module(&self, name: &str) -> (found: Option<Id>)
        ensures
            id_view(found) == lookup(self.chain(), Kind::Module, name@),
    {
        find_id(name, self, Kind::Module)
    }

    /// The address of the function `name`, seen from the current block.
    pub fn find_function(&self, name: &str) -> (found: Option<Id>)
        ensures
            id_view(found) == lookup(self.chain(), Kind::Function, name@),
    {
        find_id(name, self, Kind::Function)
    }
}

/// Mathematical value of an optional [`Id`].
pub open spec fn id_view(id: Option<Id>) -> Option<SlotAddress> {
    match id {
        Some(id) => Some(id@),
        None => None,
    }
}

/// Searches the current environment, then its ancestors from the nearest
/// outward, for a binding of `name` of the given kind.
pub fn find_id(name: &str, context: &Context, kind: Kind) -> (found: Option<Id>)
    ensures
        id_view(found) == lookup(context.chain(), kind, name@),
{
    let ghost outer = context.outer_chain();
    proof {
        assert(context.chain().drop_last() =~= outer);
    }
    match context.current.slot(kind, name) {
        Some(id) => {
            return Some(Id { depth: 0, id });
        },
        None => {},
    }
    let mut i: usize = context.outer.len();
    proof {
        assert(outer.take(i as int) =~= outer);
    }
    while i > 0
        invariant
            i <= context.outer.len(),
            outer == context.outer_chain(),
            lookup(context.chain(), kind, name@) == raise(
                lookup(outer.take(i as int), kind, name@),
                (context.outer.len() - i + 1) as nat,
            ),
        decreases i,
    {
        proof {
            assert(outer.take(i as int).drop_last() =~= outer.take(i - 1));
            assert(outer.take(i as int).last() == context.outer@[i - 1]@.bindings);
        }
        i -= 1;
        match context.outer[i].slot(kind, name) {
            Some(id) => {
                return Some(Id { depth: context.outer.len() - i, id });
            },
            None => {},
        }
    }
    None
}

} // verus!
