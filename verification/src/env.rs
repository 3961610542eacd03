//! The environment: an arena of lexical scopes. A scope names its parent
//! by index, so a closure keeps a scope by holding its id; no scope is ever
//! removed, and a scope id stays valid for the life of the arena.

use crate::ast::{LiteralExpr, LiteralView};
use crate::errors::{LoxError, RuntimeErr};
use crate::token::Token;
use vstd::prelude::*;

verus! {

/// The id of a scope: its index in the arena.
pub type EnvId = usize;

/// A name and the value bound to it.
pub struct Binding {
    pub name: String,
    pub value: LiteralExpr,
}

/// A scope: its bindings and the scope that encloses it.
pub struct Scope {
    pub bindings: Vec<Binding>,
    pub parent: Option<EnvId>,
}

/// The arena of scopes and the id of the scope in which the evaluator
/// stands. Scope 0 holds the globals.
pub struct Environment {
    scopes: Vec<Scope>,
    curr_node: EnvId,
}

/// A scope as a map from names to values.
pub struct ScopeView {
    pub bindings: Map<Seq<char>, LiteralView>,
    pub parent: Option<nat>,
}

/// The arena as a sequence of scopes, with the current scope id.
pub struct EnvView {
    pub scopes: Seq<ScopeView>,
    pub current: nat,
}

/// The first index from `from` on at which `bindings` binds `name`; the
/// length of `bindings` where there is none.
pub open spec fn find(bindings: Seq<Binding>, name: Seq<char>, from: int) -> int
    decreases bindings.len() - from,
{
    if from < 0 || from >= bindings.len() {
        bindings.len() as int
    } else if bindings[from].name@ == name {
        from
    } else {
        find(bindings, name, from + 1)
    }
}

/// The value that `bindings` binds to `name`: that of its first binding.
pub open spec fn bound(bindings: Seq<Binding>, name: Seq<char>) -> Option<LiteralView> {
    let i = find(bindings, name, 0);
    if i < bindings.len() {
        Some(bindings[i].value@)
    } else {
        None
    }
}

pub open spec fn bindings_map(bindings: Seq<Binding>) -> Map<Seq<char>, LiteralView> {
    Map::new(
        |name: Seq<char>| bound(bindings, name) is Some,
        |name: Seq<char>| bound(bindings, name)->Some_0,
    )
}

pub open spec fn parent_view(parent: Option<EnvId>) -> Option<nat> {
    match parent {
        Some(p) => Some(p as nat),
        None => None,
    }
}

impl View for Scope {
    type V = ScopeView;

    open spec fn view(&self) -> ScopeView {
        ScopeView { bindings: bindings_map(self.bindings@), parent: parent_view(self.parent) }
    }
}

/// The scope reached from `id` by `distance` steps to the parent; the walk
/// stays where a scope has no parent.
pub open spec fn ancestor_from(scopes: Seq<ScopeView>, id: nat, distance: nat) -> nat
    decreases distance,
{
    if distance == 0 || id >= scopes.len() {
        id
    } else {
        match scopes[id as int].parent {
            Some(p) => ancestor_from(scopes, p, (distance - 1) as nat),
            None => id,
        }
    }
}

/// The innermost scope from `id` outwards that binds `name`.
pub open spec fn holder_from(scopes: Seq<ScopeView>, id: nat, name: Seq<char>) -> Option<nat>
    decreases id,
{
    if id >= scopes.len() {
        None
    } else if scopes[id as int].bindings.contains_key(name) {
        Some(id)
    } else {
        match scopes[id as int].parent {
            Some(p) => if p < id {
                holder_from(scopes, p, name)
            } else {
                None
            },
            None => None,
        }
    }
}

impl EnvView {
    /// Scope 0 is the root, every other scope has a parent with a smaller
    /// id, and the current scope exists. So every parent chain is acyclic
    /// and ends at scope 0.
    pub open spec fn well_formed(self) -> bool {
        &&& self.scopes.len() >= 1
        &&& self.current < self.scopes.len()
        &&& self.scopes[0].parent is None
        &&& forall|i: int|
            1 <= i < self.scopes.len() ==> (#[trigger] self.scopes[i]).parent is Some
                && self.scopes[i].parent->Some_0 < i
    }

    /// The scope `distance` steps above the current one.
    pub open spec fn ancestor(self, distance: nat) -> nat {
        ancestor_from(self.scopes, self.current, distance)
    }

    /// The value of `name` in scope `id`.
    pub open spec fn value_in(self, id: nat, name: Seq<char>) -> Option<LiteralView> {
        if id < self.scopes.len() && self.scopes[id as int].bindings.contains_key(name) {
            Some(self.scopes[id as int].bindings[name])
        } else {
            None
        }
    }

    /// The innermost scope from the current one outwards that binds `name`.
    pub open spec fn holder(self, name: Seq<char>) -> Option<nat> {
        holder_from(self.scopes, self.current, name)
    }

    /// This arena with `name` bound to `value` in scope `id`.
    pub open spec fn with_binding(self, id: nat, name: Seq<char>, value: LiteralView) -> EnvView {
        EnvView {
            scopes: self.scopes.update(
                id as int,
                ScopeView {
                    bindings: self.scopes[id as int].bindings.insert(name, value),
                    parent: self.scopes[id as int].parent,
                },
            ),
            current: self.current,
        }
    }

    /// This arena with one more scope, which is the current one.
    pub open spec fn with_scope(self, scope: ScopeView) -> EnvView {
        EnvView { scopes: self.scopes.push(scope), current: self.scopes.len() }
    }

    /// This arena with `id` as the current scope.
    pub open spec fn at(self, id: nat) -> EnvView {
        EnvView { scopes: self.scopes, current: id }
    }

    /// `later` holds every scope of this arena under its id, with its
    /// parent; bindings may differ.
    pub open spec fn grows_to(self, later: EnvView) -> bool {
        &&& self.scopes.len() <= later.scopes.len()
        &&& forall|i: int|
            0 <= i < self.scopes.len() ==> (#[trigger] later.scopes[i]).parent
                == self.scopes[i].parent
    }
}

pub open spec fn scope_views(scopes: Seq<Scope>) -> Seq<ScopeView> {
    scopes.map_values(|s: Scope| s@)
}

impl View for Environment {
    type V = EnvView;

    closed spec fn view(&self) -> EnvView {
        EnvView { scopes: scope_views(self.scopes@), current: self.curr_node as nat }
    }
}

/// What `find` returns: the index of a binding of `name` with none before
/// it, or the length.
pub proof fn lemma_find(bindings: Seq<Binding>, name: Seq<char>, from: int)
    requires
        0 <= from <= bindings.len(),
    ensures
        from <= find(bindings, name, from) <= bindings.len(),
        find(bindings, name, from) < bindings.len() ==> bindings[find(
            bindings,
            name,
            from,
        )].name@ == name,
        forall|j: int| from <= j < find(bindings, name, from) ==> bindings[j].name@ != name,
    decreases bindings.len() - from,
{
    if from < bindings.len() && bindings[from].name@ != name {
        lemma_find(bindings, name, from + 1);
    }
}

/// `find` returns the first binding of `name`.
pub proof fn lemma_find_first(bindings: Seq<Binding>, name: Seq<char>, from: int, i: int)
    requires
        0 <= from <= i <= bindings.len(),
        i < bindings.len() ==> bindings[i].name@ == name,
        forall|j: int| from <= j < i ==> bindings[j].name@ != name,
    ensures
        find(bindings, name, from) == i,
    decreases i - from,
{
    if from < i {
        lemma_find_first(bindings, name, from + 1, i);
    }
}

/// Replacing the value of the first binding of `name` binds `name` anew and
/// changes nothing else.
pub proof fn lemma_bound_after_set(
    before: Seq<Binding>,
    after: Seq<Binding>,
    name: Seq<char>,
    value: LiteralView,
)
    requires
        find(before, name, 0) < before.len(),
        after.len() == before.len(),
        forall|j: int| 0 <= j < before.len() ==> after[j].name@ == before[j].name@,
        forall|j: int|
            0 <= j < before.len() && j != find(before, name, 0) ==> after[j].value@
                == before[j].value@,
        after[find(before, name, 0)].value@ == value,
    ensures
        bindings_map(after) =~= bindings_map(before).insert(name, value),
{
    let i = find(before, name, 0);
    lemma_find(before, name, 0);
    assert forall|k: Seq<char>| bound(after, k) == if k == name {
        Some(value)
    } else {
        bound(before, k)
    } by {
        lemma_find(before, k, 0);
        let idx = find(before, k, 0);
        lemma_find_first(after, k, 0, idx);
    }
}

/// Adding a binding of a name that is not bound binds it and changes
/// nothing else.
pub proof fn lemma_bound_after_push(
    before: Seq<Binding>,
    after: Seq<Binding>,
    name: Seq<char>,
    value: LiteralView,
)
    requires
        find(before, name, 0) == before.len(),
        after.len() == before.len() + 1,
        forall|j: int| 0 <= j < before.len() ==> after[j] == before[j],
        after[before.len() as int].name@ == name,
        after[before.len() as int].value@ == value,
    ensures
        bindings_map(after) =~= bindings_map(before).insert(name, value),
{
    lemma_find(before, name, 0);
    assert forall|k: Seq<char>| bound(after, k) == if k == name {
        Some(value)
    } else {
        bound(before, k)
    } by {
        lemma_find(before, k, 0);
        let idx = find(before, k, 0);
        if idx < before.len() {
            lemma_find_first(after, k, 0, idx);
        } else if k == name {
            lemma_find_first(after, k, 0, idx);
        } else {
            lemma_find_first(after, k, 0, after.len() as int);
        }
    }
}

/// A walk from a scope of an arena goes the same way in every arena that
/// has grown from it.
pub proof fn lemma_ancestor_is_stable(before: EnvView, after: EnvView, id: nat, distance: nat)
    requires
        before.well_formed(),
        before.grows_to(after),
        id < before.scopes.len(),
    ensures
        ancestor_from(after.scopes, id, distance) == ancestor_from(before.scopes, id, distance),
        ancestor_from(before.scopes, id, distance) < before.scopes.len(),
    decreases distance,
{
    if distance > 0 {
        assert(after.scopes[id as int].parent == before.scopes[id as int].parent);
        match before.scopes[id as int].parent {
            Some(p) => {
                assert(id >= 1);
                lemma_ancestor_is_stable(before, after, p, (distance - 1) as nat);
            },
            None => {},
        }
    }
}

/// A call of a function that was declared in the scope `closure` runs in
/// a new scope under `closure`. What it reads `distance` scopes up, one or
/// more, is what the arena holds now in the scope `distance - 1` steps
/// above `closure`: the bindings as they are at the call, not as they were
/// when the function was declared.
pub proof fn law_closure_sees_current_bindings(
    env: EnvView,
    bindings: Map<Seq<char>, LiteralView>,
    closure: nat,
    distance: nat,
    name: Seq<char>,
)
    requires
        env.well_formed(),
        closure < env.scopes.len(),
        distance >= 1,
    ensures
        ({
            let called = env.with_scope(ScopeView { bindings, parent: Some(closure) });
            let read = called.ancestor(distance);
            &&& called.well_formed()
            &&& read == ancestor_from(env.scopes, closure, (distance - 1) as nat)
            &&& read < env.scopes.len()
            &&& called.value_in(read, name) == env.value_in(read, name)
        }),
{
    let called = env.with_scope(ScopeView { bindings, parent: Some(closure) });
    assert(env.grows_to(called));
    lemma_ancestor_is_stable(env, called, closure, (distance - 1) as nat);
}

/// Every operation on the arena keeps every scope under its id with its
/// parent: binding a name, adding a scope and moving to another scope.
pub proof fn law_arena_keeps_its_scopes(
    env: EnvView,
    id: nat,
    name: Seq<char>,
    value: LiteralView,
    scope: ScopeView,
)
    requires
        env.well_formed(),
        id < env.scopes.len(),
    ensures
        env.grows_to(env.with_binding(id, name, value)),
        env.grows_to(env.with_scope(scope)),
        env.grows_to(env.at(id)),
        env.with_binding(id, name, value).scopes.len() == env.scopes.len(),
        env.with_scope(scope).scopes.len() == env.scopes.len() + 1,
{
}

/// The index of the first binding of `name` in `bindings`, or the length.
pub fn binding_index(bindings: &Vec<Binding>, name: &String) -> (i: usize)
    ensures
        i == find(bindings@, name@, 0),
        i <= bindings.len(),
{
    let mut i: usize = 0;
    while i < bindings.len() && !(bindings[i].name == *name)
        invariant
            i <= bindings.len(),
            find(bindings@, name@, 0) == find(bindings@, name@, i as int),
        decreases bindings.len() - i,
    {
        i += 1;
    }
    i
}

/// The value that `bindings` binds to `name`.
pub fn read_binding(bindings: &Vec<Binding>, name: &String) -> (value: Option<LiteralExpr>)
    ensures
        match value {
            Some(v) => bindings_map(bindings@).contains_key(name@) && bindings_map(
                bindings@,
            )[name@] == v@,
            None => !bindings_map(bindings@).contains_key(name@),
        },
{
    let i = binding_index(bindings, name);
    if i < bindings.len() {
        Some(bindings[i].value.clone())
    } else {
        None
    }
}

/// Binds `name` to `value` in `bindings`, over any binding of `name`.
pub fn write_binding(bindings: &mut Vec<Binding>, name: String, value: LiteralExpr)
    ensures
        bindings_map(final(bindings)@) == bindings_map(old(bindings)@).insert(name@, value@),
{
    let ghost before = bindings@;
    let i = binding_index(bindings, &name);
    if i < bindings.len() {
        bindings[i].value = value;
        proof {
            lemma_bound_after_set(before, bindings@, name@, value@);
        }
    } else {
        bindings.push(Binding { name, value });
        proof {
            lemma_bound_after_push(before, bindings@, name@, value@);
        }
    }
}

impl Environment {
    /// An arena with the scope of the globals alone.
    pub fn new() -> (env: Self)
        ensures
            env@.well_formed(),
            env@.scopes.len() == 1,
            env@.current == 0,
            env@.scopes[0].bindings == Map::<Seq<char>, LiteralView>::empty(),
    {
        let mut scopes: Vec<Scope> = Vec::new();
        scopes.push(Scope { bindings: Vec::new(), parent: None });
        let env = Environment { scopes, curr_node: 0 };
        assert(env@.scopes[0].bindings =~= Map::<Seq<char>, LiteralView>::empty());
        env
    }

    /// The id of the current scope.
    pub fn current(&self) -> (id: EnvId)
        ensures
            id == self@.current,
    {
        self.curr_node
    }

    /// The number of scopes in the arena.
    pub fn len(&self) -> (n: usize)
        ensures
            n == self@.scopes.len(),
    {
        self.scopes.len()
    }

    /// Makes `id` the current scope.
    pub fn set_current(&mut self, id: EnvId)
        requires
            id < old(self)@.scopes.len(),
        ensures
            final(self)@ == old(self)@.at(id as nat),
    {
        self.curr_node = id;
    }

    /// The value of `name` in scope `id`.
    pub fn get_in(&self, id: EnvId, name: &String) -> (value: Option<LiteralExpr>)
        requires
            id < self@.scopes.len(),
        ensures
            match value {
                Some(v) => self@.value_in(id as nat, name@) == Some(v@),
                None => self@.value_in(id as nat, name@) is None,
            },
    {
        read_binding(&self.scopes[id].bindings, name)
    }

    /// Binds `name` to `value` in scope `id`, over any binding of `name`
    /// there.
    fn write(&mut self, id: EnvId, name: String, value: LiteralExpr)
        requires
            id < old(self)@.scopes.len(),
        ensures
            final(self)@ == old(self)@.with_binding(id as nat, name@, value@),
    {
        write_binding(&mut self.scopes[id].bindings, name, value);
        assert(self@.scopes =~= old(self)@.with_binding(id as nat, name@, value@).scopes);
    }

    /// Binds `name` to `value` in the current scope, over any binding of
    /// `name` there.
    pub fn define(&mut self, name: String, value: LiteralExpr)
        requires
            old(self)@.well_formed(),
        ensures
            final(self)@ == old(self)@.with_binding(old(self)@.current, name@, value@),
            final(self)@.well_formed(),
    {
        let id = self.curr_node;
        self.write(id, name, value);
    }

    /// The scope `distance` steps above the current one.
    pub fn ancestor(&self, distance: usize) -> (id: EnvId)
        requires
            self@.well_formed(),
        ensures
            id == self@.ancestor(distance as nat),
            id < self@.scopes.len(),
    {
        let mut id = self.curr_node;
        let mut left = distance;
        while left > 0
            invariant
                self@.well_formed(),
                id < self.scopes.len(),
                ancestor_from(self@.scopes, id as nat, left as nat) == self@.ancestor(
                    distance as nat,
                ),
            decreases left,
        {
            match self.scopes[id].parent {
                Some(p) => {
                    assert(self@.scopes[id as int].parent == Some(p as nat));
                    id = p;
                    left -= 1;
                },
                None => {
                    assert(self@.scopes[id as int].parent is None);
                    left = 0;
                },
            }
        }
        id
    }

    /// The error for a name that is not bound.
    fn undefined(name: &Token) -> (e: LoxError)
        ensures
            e == LoxError::Runtime(RuntimeErr::UndefinedVariable(name.lexeme, name.line)),
    {
        LoxError::Runtime(RuntimeErr::UndefinedVariable(name.lexeme.clone(), name.line))
    }

    /// The value of the global `name`.
    pub fn get_global(&self, name: &Token) -> (r: Result<LiteralExpr, LoxError>)
        requires
            self@.well_formed(),
        ensures
            match self@.value_in(0, name.lexeme@) {
                Some(v) => r is Ok && r->Ok_0@ == v,
                None => r == Err::<LiteralExpr, LoxError>(
                    LoxError::Runtime(RuntimeErr::UndefinedVariable(name.lexeme, name.line)),
                ),
            },
    {
        match self.get_in(0, &name.lexeme) {
            Some(v) => Ok(v),
            None => Err(Self::undefined(name)),
        }
    }

    /// The value of `name` in the scope `distance` steps above the current
    /// one.
    pub fn get_at(&self, distance: usize, name: &Token) -> (r: Result<LiteralExpr, LoxError>)
        requires
            self@.well_formed(),
        ensures
            match self@.value_in(self@.ancestor(distance as nat), name.lexeme@) {
                Some(v) => r is Ok && r->Ok_0@ == v,
                None => r == Err::<LiteralExpr, LoxError>(
                    LoxError::Runtime(RuntimeErr::UndefinedVariable(name.lexeme, name.line)),
                ),
            },
    {
        let id = self.ancestor(distance);
        match self.get_in(id, &name.lexeme) {
            Some(v) => Ok(v),
            None => Err(Self::undefined(name)),
        }
    }

    /// Gives the global `name` the value `value`; the global must exist.
    pub fn assign_global(&mut self, name: &Token, value: LiteralExpr) -> (r: Result<(), LoxError>)
        requires
            old(self)@.well_formed(),
        ensures
            final(self)@.well_formed(),
            match old(self)@.value_in(0, name.lexeme@) {
                Some(_) => r is Ok && final(self)@ == old(self)@.with_binding(
                    0,
                    name.lexeme@,
                    value@,
                ),
                None => final(self)@ == old(self)@ && r == Err::<(), LoxError>(
                    LoxError::Runtime(RuntimeErr::UndefinedVariable(name.lexeme, name.line)),
                ),
            },
    {
        match self.get_in(0, &name.lexeme) {
            Some(_) => {
                self.write(0, name.lexeme.clone(), value);
                Ok(())
            },
            None => Err(Self::undefined(name)),
        }
    }

    /// Binds `name` to `value` in the scope `distance` steps above the
    /// current one.
    pub fn assign_at(&mut self, distance: usize, name: &Token, value: LiteralExpr)
        requires
            old(self)@.well_formed(),
        ensures
            final(self)@.well_formed(),
            old(self)@.ancestor(distance as nat) < old(self)@.scopes.len(),
            final(self)@ == old(self)@.with_binding(
                old(self)@.ancestor(distance as nat),
                name.lexeme@,
                value@,
            ),
    {
        let id = self.ancestor(distance);
        self.write(id, name.lexeme.clone(), value);
    }

    /// Appends an empty scope whose parent is the current scope, and makes
    /// it the current one.
    pub fn push_block(&mut self)
        requires
            old(self)@.well_formed(),
        ensures
            final(self)@.well_formed(),
            final(self)@ == old(self)@.with_scope(
                ScopeView { bindings: Map::empty(), parent: Some(old(self)@.current) },
            ),
    {
        let parent = self.curr_node;
        let bindings: Vec<Binding> = Vec::new();
        assert(bindings_map(bindings@) =~= Map::<Seq<char>, LiteralView>::empty());
        self.scopes.push(Scope { bindings, parent: Some(parent) });
        self.curr_node = self.scopes.len() - 1;
        assert(self@.scopes =~= old(self)@.with_scope(
            ScopeView { bindings: Map::empty(), parent: Some(old(self)@.current) },
        ).scopes);
    }

    /// Appends a scope with the bindings `bindings` whose parent is
    /// `parent`, and makes it the current one.
    pub fn push_closure(&mut self, bindings: Vec<Binding>, parent: EnvId)
        requires
            old(self)@.well_formed(),
            parent < old(self)@.scopes.len(),
        ensures
            final(self)@.well_formed(),
            final(self)@ == old(self)@.with_scope(
                ScopeView { bindings: bindings_map(bindings@), parent: Some(parent as nat) },
            ),
    {
        let ghost scope = ScopeView {
            bindings: bindings_map(bindings@),
            parent: Some(parent as nat),
        };
        self.scopes.push(Scope { bindings, parent: Some(parent) });
        self.curr_node = self.scopes.len() - 1;
        assert(self@.scopes =~= old(self)@.with_scope(scope).scopes);
    }

    /// Makes the parent of the current scope the current one; scope 0
    /// stays. No scope is removed.
    pub fn pop(&mut self)
        requires
            old(self)@.well_formed(),
        ensures
            final(self)@.well_formed(),
            final(self)@ == old(self)@.at(
                match old(self)@.scopes[old(self)@.current as int].parent {
                    Some(p) => p,
                    None => 0,
                },
            ),
    {
        self.curr_node = match self.scopes[self.curr_node].parent {
            Some(p) => p,
            None => 0,
        };
    }

    /// The innermost scope from the current one outwards that binds `name`.
    fn holder(&self, name: &String) -> (id: Option<EnvId>)
        requires
            self@.well_formed(),
        ensures
            match id {
                Some(i) => {
                    &&& self@.holder(name@) == Some(i as nat)
                    &&& i < self@.scopes.len()
                    &&& self@.value_in(i as nat, name@) is Some
                },
                None => self@.holder(name@) is None,
            },
    {
        let mut id = self.curr_node;
        loop
            invariant
                self@.well_formed(),
                id < self.scopes.len(),
                holder_from(self@.scopes, id as nat, name@) == self@.holder(name@),
            decreases id,
        {
            let bindings = &self.scopes[id].bindings;
            if binding_index(bindings, name) < bindings.len() {
                return Some(id);
            }
            match self.scopes[id].parent {
                Some(p) => {
                    assert(self@.scopes[id as int].parent == Some(p as nat));
                    id = p;
                },
                None => {
                    assert(self@.scopes[id as int].parent is None);
                    return None;
                },
            }
        }
    }

    /// The value of `name` in the innermost scope that binds it, from the
    /// current scope outwards.
    pub fn get(&self, name: &Token) -> (r: Result<LiteralExpr, LoxError>)
        requires
            self@.well_formed(),
        ensures
            match self@.holder(name.lexeme@) {
                Some(id) => r is Ok && Some(r->Ok_0@) == self@.value_in(id, name.lexeme@),
                None => r == Err::<LiteralExpr, LoxError>(
                    LoxError::Runtime(RuntimeErr::UndefinedVariable(name.lexeme, name.line)),
                ),
            },
    {
        match self.holder(&name.lexeme) {
            Some(id) => match self.get_in(id, &name.lexeme) {
                Some(v) => Ok(v),
                None => Err(Self::undefined(name)),
            },
            None => Err(Self::undefined(name)),
        }
    }

    /// Gives `name` the value `value` in the innermost scope that binds it,
    /// from the current scope outwards.
    pub fn assign(&mut self, name: &Token, value: LiteralExpr) -> (r: Result<(), LoxError>)
        requires
            old(self)@.well_formed(),
        ensures
            final(self)@.well_formed(),
            match old(self)@.holder(name.lexeme@) {
                Some(id) => r is Ok && id < old(self)@.scopes.len() && final(self)@
                    == old(self)@.with_binding(id, name.lexeme@, value@),
                None => final(self)@ == old(self)@ && r == Err::<(), LoxError>(
                    LoxError::Runtime(RuntimeErr::UndefinedVariable(name.lexeme, name.line)),
                ),
            },
    {
        match self.holder(&name.lexeme) {
            Some(id) => {
                self.write(id, name.lexeme.clone(), value);
                Ok(())
            },
            None => Err(Self::undefined(name)),
        }
    }
}

} // verus!
