//! What can be called, and the instances of classes: the entries of the
//! evaluator's tables, which values name by handle.

use crate::ast::{FunStmt, FunView, LiteralExpr, LiteralView};
use crate::env::{Binding, EnvId, bindings_map};
use std::rc::Rc;
use vstd::prelude::*;

verus! {

/// `Rc::clone` of the standard library: a second handle to the same
/// declaration. The contract says that the two are equal as values.
#[verifier::external_body]
pub(crate) fn share(declaration: &Rc<FunStmt>) -> (shared: Rc<FunStmt>)
    ensures
        shared == *declaration,
{
    Rc::clone(declaration)
}

/// A function of the program with the scope in which it was declared.
pub struct UserFunction {
    pub declaration: Rc<FunStmt>,
    pub closure: EnvId,
    pub is_initializer: bool,
}

impl Clone for UserFunction {
    fn clone(&self) -> (f: Self)
        ensures
            f == *self,
    {
        UserFunction {
            declaration: share(&self.declaration),
            closure: self.closure,
            is_initializer: self.is_initializer,
        }
    }
}

/// The functions that the host implements.
#[derive(Clone, Copy, Debug, PartialEq, Eq, Structural)]
pub enum NativeAction {
    /// The seconds since the Unix epoch.
    Clock,
}

#[derive(Clone, Copy, Debug, PartialEq, Eq, Structural)]
pub struct NativeFn {
    pub arity: u8,
    pub action: NativeAction,
}

impl NativeFn {
    pub fn new(arity: u8, action: NativeAction) -> (f: Self)
        ensures
            f.arity == arity,
            f.action == action,
    {
        Self { arity, action }
    }
}

/// A class: its name, the handle of its superclass, and its methods in the
/// order of their declaration. The table is fixed when the class is
/// declared.
pub struct ClassDec {
    pub name: String,
    pub superclass: Option<usize>,
    pub methods: Vec<UserFunction>,
}

pub enum Callable {
    User(UserFunction),
    Class(ClassDec),
    Native(NativeFn),
}

/// An instance: its own handle, the handle of its class, and its fields.
pub struct ClassInstance {
    pub id: usize,
    pub class: usize,
    pub fields: Vec<Binding>,
}

/// How a statement ended: normally, or with a `return` that is on its way
/// to the call that it ends.
#[derive(Debug, PartialEq)]
pub enum ExecResult {
    Normal,
    Return(LiteralExpr),
}

pub struct UserView {
    pub declaration: FunView,
    pub closure: nat,
    pub is_initializer: bool,
}

pub struct ClassView {
    pub name: Seq<char>,
    pub superclass: Option<nat>,
    pub methods: Seq<UserView>,
}

pub enum CallableView {
    User(UserView),
    Class(ClassView),
    Native(NativeFn),
}

pub struct InstanceView {
    pub id: nat,
    pub class: nat,
    pub fields: Map<Seq<char>, LiteralView>,
}

/// How a statement ended, with its value as a view.
pub enum Flow {
    Normal,
    Return(LiteralView),
}

impl View for UserFunction {
    type V = UserView;

    open spec fn view(&self) -> UserView {
        UserView {
            declaration: self.declaration@,
            closure: self.closure as nat,
            is_initializer: self.is_initializer,
        }
    }
}

pub open spec fn user_views(methods: Seq<UserFunction>) -> Seq<UserView> {
    methods.map_values(|m: UserFunction| m@)
}

impl View for ClassDec {
    type V = ClassView;

    open spec fn view(&self) -> ClassView {
        ClassView {
            name: self.name@,
            superclass: match self.superclass {
                Some(s) => Some(s as nat),
                None => None,
            },
            methods: user_views(self.methods@),
        }
    }
}

impl View for Callable {
    type V = CallableView;

    open spec fn view(&self) -> CallableView {
        match self {
            Callable::User(f) => CallableView::User(f@),
            Callable::Class(c) => CallableView::Class(c@),
            Callable::Native(n) => CallableView::Native(*n),
        }
    }
}

impl View for ClassInstance {
    type V = InstanceView;

    open spec fn view(&self) -> InstanceView {
        InstanceView {
            id: self.id as nat,
            class: self.class as nat,
            fields: bindings_map(self.fields@),
        }
    }
}

impl View for ExecResult {
    type V = Flow;

    open spec fn view(&self) -> Flow {
        match self {
            ExecResult::Normal => Flow::Normal,
            ExecResult::Return(v) => Flow::Return(v@),
        }
    }
}

pub open spec fn callable_views(callables: Seq<Callable>) -> Seq<CallableView> {
    callables.map_values(|c: Callable| c@)
}

pub open spec fn instance_views(instances: Seq<ClassInstance>) -> Seq<InstanceView> {
    instances.map_values(|i: ClassInstance| i@)
}

pub open spec fn user_option_view(m: Option<UserFunction>) -> Option<UserView> {
    match m {
        Some(f) => Some(f@),
        None => None,
    }
}

/// The first index from `from` on at which `methods` holds a method named
/// `name`; the length of `methods` where there is none.
pub open spec fn method_index(methods: Seq<UserView>, name: Seq<char>, from: int) -> int
    decreases methods.len() - from,
{
    if from < 0 || from >= methods.len() {
        methods.len() as int
    } else if methods[from].declaration.name.lexeme == name {
        from
    } else {
        method_index(methods, name, from + 1)
    }
}

/// The method named `name` that the class declares itself.
pub open spec fn own_method(class: ClassView, name: Seq<char>) -> Option<UserView> {
    let i = method_index(class.methods, name, 0);
    if i < class.methods.len() {
        Some(class.methods[i])
    } else {
        None
    }
}

/// The method named `name` of the class with the handle `class`: its own,
/// or else that of its superclass, and so on up the chain. A superclass
/// stands before its subclasses in the table.
pub open spec fn find_method(callables: Seq<CallableView>, class: int, name: Seq<char>) -> Option<
    UserView,
>
    decreases class,
{
    if class < 0 || class >= callables.len() {
        None
    } else {
        match callables[class] {
            CallableView::Class(c) => match own_method(c, name) {
                Some(m) => Some(m),
                None => match c.superclass {
                    Some(s) => if s < class {
                        find_method(callables, s as int, name)
                    } else {
                        None
                    },
                    None => None,
                },
            },
            _ => None,
        }
    }
}

/// The number of arguments that the callable with the handle `handle`
/// takes: the parameters of a function, those of the initializer of a
/// class or none where it has no initializer, and the arity of a native
/// function.
pub open spec fn arity_of(callables: Seq<CallableView>, handle: int) -> nat {
    if handle < 0 || handle >= callables.len() {
        0
    } else {
        match callables[handle] {
            CallableView::User(f) => f.declaration.params.len(),
            CallableView::Class(_) => match find_method(callables, handle, "init"@) {
                Some(init) => init.declaration.params.len(),
                None => 0,
            },
            CallableView::Native(n) => n.arity as nat,
        }
    }
}

/// The method named `name` that `class` declares itself.
pub fn get_own_method(class: &ClassDec, name: &String) -> (m: Option<UserFunction>)
    ensures
        user_option_view(m) == own_method(class@, name@),
{
    let mut i: usize = 0;
    while i < class.methods.len() && !(class.methods[i].declaration.name.lexeme == *name)
        invariant
            i <= class.methods.len(),
            method_index(class@.methods, name@, 0) == method_index(class@.methods, name@, i as int),
        decreases class.methods.len() - i,
    {
        i += 1;
    }
    if i < class.methods.len() {
        Some(class.methods[i].clone())
    } else {
        None
    }
}

/// The method named `name` of the class with the handle `class`, looked up
/// along the chain of superclasses.
pub fn get_method(callables: &Vec<Callable>, class: usize, name: &String) -> (m: Option<
    UserFunction,
>)
    ensures
        user_option_view(m) == find_method(callable_views(callables@), class as int, name@),
    decreases class,
{
    if class >= callables.len() {
        return None;
    }
    match &callables[class] {
        Callable::Class(c) => match get_own_method(c, name) {
            Some(m) => Some(m),
            None => match c.superclass {
                Some(s) => if s < class {
                    get_method(callables, s, name)
                } else {
                    None
                },
                None => None,
            },
        },
        _ => None,
    }
}

impl Callable {
    /// The number of arguments that the callable takes that is the entry
    /// `handle` of `callables`.
    pub fn arity(callables: &Vec<Callable>, handle: usize) -> (n: usize)
        ensures
            n == arity_of(callable_views(callables@), handle as int),
    {
        if handle >= callables.len() {
            return 0;
        }
        match &callables[handle] {
            Callable::User(f) => {
                assert(f.declaration@.params.len() == f.declaration.params.len());
                f.declaration.params.len()
            },
            Callable::Class(_) => {
                let init = "init".to_owned();
                match get_method(callables, handle, &init) {
                    Some(m) => {
                        assert(m.declaration@.params.len() == m.declaration.params.len());
                        m.declaration.params.len()
                    },
                    None => 0,
                }
            },
            Callable::Native(n) => n.arity as usize,
        }
    }
}

} // verus!
