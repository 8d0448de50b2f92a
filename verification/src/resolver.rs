use vstd::prelude::*;

use std::rc::Rc;

use crate::error::{ResolveErrV, ResolveError, ResolveErrorKind};
use crate::expr::Expr;
use crate::interpreter::sp_set_slot;
use crate::stmt::Stmt;
use crate::token::Token;

verus! {

/// What kind of function the resolver currently stands in; `return` is
/// legal only inside one, and an initializer may not return a value.
#[derive(Debug, PartialEq, Eq, Clone, Copy, Structural)]
pub enum FunctionType {
    NoFunction,
    Function,
    Initializer,
    Method,
}

/// What kind of class the resolver currently stands in; `this` is legal
/// only inside one, and `super` only under a superclass.
#[derive(Debug, PartialEq, Eq, Clone, Copy, Structural)]
pub enum ClassType {
    NoClass,
    Class,
    Subclass,
}

/// Ghost model of the resolver: the scope stack (innermost last, each
/// scope a list of name/initialized pairs, newest binding winning), the
/// two context markers, the table of resolved distances by reference slot,
/// and the errors found so far.
pub ghost struct ResolverV {
    pub scopes: Seq<Seq<(Seq<char>, bool)>>,
    pub current_function: FunctionType,
    pub current_class: ClassType,
    pub table: Seq<Option<usize>>,
    pub errors: Seq<ResolveErrV>,
}

/// The static resolution pass. It walks the parsed program once before
/// execution, keeping a stack of scopes, and records for every variable
/// reference how many scopes lie between the reference and the nearest
/// declaration of its name; the interpreter later walks exactly that many
/// frames. References it does not find are left to the global frame.
/// Scoping violations are collected, not fatal: one pass surfaces many.
pub struct Resolver {
    /// The scope stack, innermost scope last.
    pub scopes: Vec<Vec<(String, bool)>>,
    /// The kind of function being resolved.
    pub current_function: FunctionType,
    /// The kind of class being resolved.
    pub current_class: ClassType,
    /// The resolved distance of each reference slot.
    pub table: Vec<Option<usize>>,
    /// The scoping violations found so far.
    pub errors: Vec<ResolveError>,
}

impl View for Resolver {
    type V = ResolverV;

    open spec fn view(&self) -> ResolverV {
        ResolverV {
            scopes: self.scopes@.map_values(
                |sc: Vec<(String, bool)>| sc@.map_values(|p: (String, bool)| (p.0@, p.1)),
            ),
            current_function: self.current_function,
            current_class: self.current_class,
            table: self.table@,
            errors: self.errors@.map_values(|e: ResolveError| e@),
        }
    }
}

/// Whether a scope binds a name.
pub open spec fn sp_scope_binds(scope: Seq<(Seq<char>, bool)>, name: Seq<char>) -> bool {
    exists|k: int| 0 <= k < scope.len() && (#[trigger] scope[k]).0 == name
}

/// The newest binding of a name in one scope: true means initialized.
pub open spec fn sp_scope_find(scope: Seq<(Seq<char>, bool)>, name: Seq<char>) -> Option<bool>
    decreases scope.len(),
{
    if scope.len() == 0 {
        Option::None
    } else if scope.last().0 == name {
        Option::Some(scope.last().1)
    } else {
        sp_scope_find(scope.drop_last(), name)
    }
}

/// The number of scopes between the innermost scope and the nearest scope
/// binding the name: 0 when the innermost scope itself binds it. `None`
/// when no scope binds it, in which case the reference is left global.
pub open spec fn sp_nearest(scopes: Seq<Seq<(Seq<char>, bool)>>, name: Seq<char>) -> Option<int>
    decreases scopes.len(),
{
    if scopes.len() == 0 {
        Option::None
    } else if sp_scope_binds(scopes.last(), name) {
        Option::Some(0int)
    } else {
        match sp_nearest(scopes.drop_last(), name) {
            Option::Some(d) => Option::Some(d + 1),
            Option::None => Option::None,
        }
    }
}

/// The recorded distance names the nearest enclosing declaration: the
/// scope exactly that many hops out binds the name, and no scope nearer
/// the reference does. This is the sense in which every resolved variable
/// reference's distance is correct.
pub proof fn lemma_nearest_is_nearest(scopes: Seq<Seq<(Seq<char>, bool)>>, name: Seq<char>)
    ensures
        match sp_nearest(scopes, name) {
            Option::Some(d) => 0 <= d < scopes.len() && sp_scope_binds(
                scopes[scopes.len() - 1 - d],
                name,
            ) && forall|j: int|
                0 <= j < d ==> !sp_scope_binds(#[trigger] scopes[scopes.len() - 1 - j], name),
            Option::None => forall|j: int|
                0 <= j < scopes.len() ==> !sp_scope_binds(#[trigger] scopes[j], name),
        },
    decreases scopes.len(),
{
    if scopes.len() > 0 {
        let n = scopes.len() as int;
        lemma_nearest_is_nearest(scopes.drop_last(), name);
        if sp_scope_binds(scopes.last(), name) {
            assert(scopes[n - 1] == scopes.last());
        } else {
            assert(forall|k: int|
                0 <= k < n - 1 ==> scopes.drop_last()[k] == #[trigger] scopes[k]);
            match sp_nearest(scopes.drop_last(), name) {
                Option::Some(dp) => {
                    assert(sp_scope_binds(scopes[n - 1 - (dp + 1)], name)) by {
                        assert(sp_scope_binds(scopes.drop_last()[n - 2 - dp], name));
                    }
                    assert forall|j: int| 0 <= j < dp + 1 implies !sp_scope_binds(
                        #[trigger] scopes[n - 1 - j],
                        name,
                    ) by {
                        if j == 0 {
                            assert(scopes[n - 1] == scopes.last());
                        } else {
                            assert(!sp_scope_binds(
                                scopes.drop_last()[(n - 1) - 1 - (j - 1)],
                                name,
                            ));
                        }
                    }
                },
                Option::None => {
                    assert forall|j: int| 0 <= j < n implies !sp_scope_binds(
                        #[trigger] scopes[j],
                        name,
                    ) by {
                        if j < n - 1 {
                            assert(!sp_scope_binds(scopes.drop_last()[j], name));
                        } else {
                            assert(scopes[n - 1] == scopes.last());
                        }
                    }
                },
            }
        }
    }
}

/// What resolving one reference records, in one statement: when any scope
/// binds the name, the reference's slot receives exactly the number of
/// scopes between the innermost scope and the nearest scope binding the
/// name — that scope binds it and no nearer one does — and nothing else of
/// the resolver changes; when no scope binds it, the resolver is left as
/// it was and the reference stays global. This is the sense in which every
/// resolved variable reference's recorded distance is correct.
pub proof fn lemma_resolve_local_records_nearest(rs: ResolverV, name: Seq<char>, slot: usize)
    ensures
        match sp_nearest(rs.scopes, name) {
            Option::Some(d) => 0 <= d < rs.scopes.len() && sp_scope_binds(
                rs.scopes[rs.scopes.len() - 1 - d],
                name,
            ) && (forall|j: int|
                0 <= j < d ==> !sp_scope_binds(
                    #[trigger] rs.scopes[rs.scopes.len() - 1 - j],
                    name,
                )) && sp_resolve_local(rs, name, slot) == (ResolverV {
                table: sp_set_slot(rs.table, slot, d as usize),
                ..rs
            }),
            Option::None => sp_resolve_local(rs, name, slot) == rs,
        },
{
    lemma_nearest_is_nearest(rs.scopes, name);
}

/// Recording a reference: when some scope binds the name, the distance to
/// the nearest one goes into the table under the reference's slot; when
/// none does, the table is untouched and the reference stays global.
pub open spec fn sp_resolve_local(rs: ResolverV, name: Seq<char>, slot: usize) -> ResolverV {
    match sp_nearest(rs.scopes, name) {
        Option::Some(d) => ResolverV { table: sp_set_slot(rs.table, slot, d as usize), ..rs },
        Option::None => rs,
    }
}

/// A recorded error.
pub open spec fn sp_err(rs: ResolverV, token: crate::token::TokenV, kind: ResolveErrorKind) -> ResolverV {
    ResolverV { errors: rs.errors.push(ResolveErrV { token, kind }), ..rs }
}

/// Declaring a name in the innermost scope, as not yet initialized. A
/// second declaration of one name in one scope is an error; a declaration
/// with no open scope is a global and is not tracked.
pub open spec fn sp_declare(rs: ResolverV, token: crate::token::TokenV) -> ResolverV {
    if rs.scopes.len() == 0 {
        rs
    } else {
        let rs1 = if sp_scope_binds(rs.scopes.last(), token.lexeme) {
            sp_err(rs, token, ResolveErrorKind::AlreadyDefined)
        } else {
            rs
        };
        ResolverV {
            scopes: rs1.scopes.update(
                rs1.scopes.len() - 1,
                rs1.scopes.last().push((token.lexeme, false)),
            ),
            ..rs1
        }
    }
}

/// Marking a name in the innermost scope as initialized.
pub open spec fn sp_define(rs: ResolverV, name: Seq<char>) -> ResolverV {
    if rs.scopes.len() == 0 {
        rs
    } else {
        ResolverV {
            scopes: rs.scopes.update(
                rs.scopes.len() - 1,
                rs.scopes.last().push((name, true)),
            ),
            ..rs
        }
    }
}

/// Opening a scope.
pub open spec fn sp_begin_scope(rs: ResolverV) -> ResolverV {
    ResolverV { scopes: rs.scopes.push(Seq::empty()), ..rs }
}

/// Closing the innermost scope.
pub open spec fn sp_end_scope(rs: ResolverV) -> ResolverV {
    if rs.scopes.len() == 0 {
        rs
    } else {
        ResolverV { scopes: rs.scopes.drop_last(), ..rs }
    }
}

/// Resolution of an expression.
pub open spec fn sp_resolve_expr(rs: ResolverV, e: Expr) -> ResolverV
    decreases e, 0nat,
{
    match e {
        Expr::Literal(_) => rs,
        Expr::Grouping(g) => sp_resolve_expr(rs, *g.expr),
        Expr::Logical(l) => sp_resolve_expr(sp_resolve_expr(rs, *l.left), *l.right),
        Expr::Unary(u) => sp_resolve_expr(rs, *u.expr),
        Expr::Binary(b) => sp_resolve_expr(sp_resolve_expr(rs, *b.left), *b.right),
        Expr::Variable(v) => {
            let rs1 = if rs.scopes.len() > 0 && sp_scope_find(rs.scopes.last(), v.name.lexeme@)
                == Option::Some(false) {
                sp_err(rs, v.name@, ResolveErrorKind::ReadInInitializer)
            } else {
                rs
            };
            sp_resolve_local(rs1, v.name.lexeme@, v.slot)
        },
        Expr::Assign(a) => {
            let rs1 = sp_resolve_expr(rs, *a.value);
            sp_resolve_local(rs1, a.name.lexeme@, a.slot)
        },
        Expr::Call(c) => {
            let rs1 = sp_resolve_expr(rs, *c.callee);
            sp_resolve_exprs(rs1, c.arguments@, 0)
        },
        Expr::Get(g) => sp_resolve_expr(rs, *g.object),
        Expr::SetProp(s) => sp_resolve_expr(sp_resolve_expr(rs, *s.value), *s.object),
        Expr::This(t) => {
            let rs1 = if rs.current_class is NoClass {
                sp_err(rs, t.keyword@, ResolveErrorKind::ThisOutsideClass)
            } else {
                rs
            };
            if rs.current_class is NoClass {
                rs1
            } else {
                sp_resolve_local(rs1, "this"@, t.slot)
            }
        },
        Expr::Super(s) => {
            let rs1 = match rs.current_class {
                ClassType::Subclass => rs,
                ClassType::NoClass => sp_err(rs, s.keyword@, ResolveErrorKind::SuperOutsideClass),
                ClassType::Class => sp_err(
                    rs,
                    s.keyword@,
                    ResolveErrorKind::SuperWithoutSuperclass,
                ),
            };
            sp_resolve_local(rs1, "super"@, s.slot)
        },
    }
}

/// Resolution of an expression list from index `i` on.
pub open spec fn sp_resolve_exprs(rs: ResolverV, es: Seq<Expr>, i: int) -> ResolverV
    decreases es, es.len() - i,
{
    if i < 0 || i >= es.len() {
        rs
    } else {
        sp_resolve_exprs(sp_resolve_expr(rs, es[i]), es, i + 1)
    }
}

/// Resolution of a function declaration's parameters and body, under the
/// given function context: one fresh scope holds the parameters and the
/// body's declarations alike.
pub open spec fn sp_resolve_function(
    rs: ResolverV,
    d: crate::stmt::FunctionData,
    kind: FunctionType,
) -> ResolverV
    decreases d.body, d.params@.len() + 1, 0nat,
{
    let enclosing = rs.current_function;
    let rs1 = ResolverV { current_function: kind, ..rs };
    let rs2 = sp_begin_scope(rs1);
    let rs3 = sp_declare_params(rs2, d.params@, 0);
    let rs4 = sp_resolve_stmts(rs3, d.body@, 0);
    let rs5 = sp_end_scope(rs4);
    ResolverV { current_function: enclosing, ..rs5 }
}

/// Declaring and defining each parameter, from index `i` on.
pub open spec fn sp_declare_params(rs: ResolverV, params: Seq<Token>, i: int) -> ResolverV
    decreases params.len() - i,
{
    if i < 0 || i >= params.len() {
        rs
    } else {
        let rs1 = sp_define(sp_declare(rs, params[i]@), params[i].lexeme@);
        sp_declare_params(rs1, params, i + 1)
    }
}

/// Resolution of a statement.
pub open spec fn sp_resolve_stmt(rs: ResolverV, s: Stmt) -> ResolverV
    decreases s, 0nat, 0nat,
{
    match s {
        Stmt::Expression(d) => sp_resolve_expr(rs, d.expr),
        Stmt::Print(d) => sp_resolve_expr(rs, d.expr),
        Stmt::Var(d) => {
            let rs1 = sp_declare(rs, d.name@);
            let rs2 = match d.initializer {
                Option::Some(e) => sp_resolve_expr(rs1, e),
                Option::None => rs1,
            };
            sp_define(rs2, d.name.lexeme@)
        },
        Stmt::Function(d) => {
            let rs1 = sp_define(sp_declare(rs, d.name@), d.name.lexeme@);
            sp_resolve_function(rs1, d, FunctionType::Function)
        },
        Stmt::If(d) => {
            let rs1 = sp_resolve_expr(rs, d.condition);
            let rs2 = sp_resolve_stmt(rs1, *d.then_branch);
            match d.else_branch {
                Option::Some(e) => sp_resolve_stmt(rs2, *e),
                Option::None => rs2,
            }
        },
        Stmt::While(d) => {
            let rs1 = sp_resolve_expr(rs, d.condition);
            sp_resolve_stmt(rs1, *d.body)
        },
        Stmt::Return(d) => {
            let rs1 = if rs.current_function is NoFunction {
                sp_err(rs, d.keyword@, ResolveErrorKind::ReturnOutsideFunction)
            } else {
                rs
            };
            match d.value {
                Option::Some(e) => if rs1.current_function is Initializer {
                    sp_err(rs1, d.keyword@, ResolveErrorKind::ReturnValueFromInitializer)
                } else {
                    sp_resolve_expr(rs1, e)
                },
                Option::None => rs1,
            }
        },
        Stmt::Break(_) => rs,
        Stmt::Block(d) => {
            let rs1 = sp_begin_scope(rs);
            let rs2 = sp_resolve_stmts(rs1, d.statements@, 0);
            sp_end_scope(rs2)
        },
        Stmt::Class(d) => sp_resolve_class(rs, d),
    }
}

/// Resolution of a class statement. The class's own name is usable inside
/// its body. A class naming itself as its superclass is an error and, like
/// every resolve error, is recorded without stopping the pass, so that the
/// program never reaches the evaluator. Under a superclass a scope binding
/// `super` is opened; a scope binding `this` is opened for the methods in
/// either case, and the method named `init` is resolved as an initializer.
pub open spec fn sp_resolve_class(rs: ResolverV, d: crate::stmt::ClassData) -> ResolverV
    decreases d.methods, 0nat, 1nat,
{
    let enclosing = rs.current_class;
    let rs1 = ResolverV { current_class: ClassType::Class, ..rs };
    let rs2 = sp_define(sp_declare(rs1, d.name@), d.name.lexeme@);
    let rs3 = match d.superclass {
        Option::Some(sup) => {
            let rsa = match sup {
                Expr::Variable(v) => if d.name.lexeme@ == v.name.lexeme@ {
                    sp_err(rs2, v.name@, ResolveErrorKind::InheritFromItself)
                } else {
                    rs2
                },
                _ => rs2,
            };
            let rsb = ResolverV { current_class: ClassType::Subclass, ..rsa };
            let rsc = sp_resolve_expr(rsb, sup);
            let rsd = sp_begin_scope(rsc);
            ResolverV {
                scopes: rsd.scopes.update(
                    rsd.scopes.len() - 1,
                    rsd.scopes.last().push(("super"@, true)),
                ),
                ..rsd
            }
        },
        Option::None => rs2,
    };
    let rs4 = sp_begin_scope(rs3);
    let rs5 = ResolverV {
        scopes: rs4.scopes.update(
            rs4.scopes.len() - 1,
            rs4.scopes.last().push(("this"@, true)),
        ),
        ..rs4
    };
    let rs6 = sp_resolve_methods(rs5, d.methods@, 0);
    let rs7 = sp_end_scope(rs6);
    let rs8 = match d.superclass {
        Option::Some(_) => sp_end_scope(rs7),
        Option::None => rs7,
    };
    ResolverV { current_class: enclosing, ..rs8 }
}

/// Resolution of a class's methods from index `i` on: each function
/// declaration among them is resolved as a method, the one named `init` as
/// an initializer. Anything else cannot come out of the parser and is
/// passed over.
pub open spec fn sp_resolve_methods(rs: ResolverV, methods: Seq<Stmt>, i: int) -> ResolverV
    decreases methods, methods.len() - i, 2nat,
{
    if i < 0 || i >= methods.len() {
        rs
    } else {
        let rs1 = match methods[i] {
            Stmt::Function(f) => {
                let kind = if f.name.lexeme@ == "init"@ {
                    FunctionType::Initializer
                } else {
                    FunctionType::Method
                };
                sp_resolve_function(rs, f, kind)
            },
            _ => rs,
        };
        sp_resolve_methods(rs1, methods, i + 1)
    }
}

/// Resolution of a statement list from index `i` on.
pub open spec fn sp_resolve_stmts(rs: ResolverV, stmts: Seq<Stmt>, i: int) -> ResolverV
    decreases stmts, stmts.len() - i, 0nat,
{
    if i < 0 || i >= stmts.len() {
        rs
    } else {
        sp_resolve_stmts(sp_resolve_stmt(rs, stmts[i]), stmts, i + 1)
    }
}

/// The state a fresh resolver starts in.
pub open spec fn sp_resolver_initial() -> ResolverV {
    ResolverV {
        scopes: Seq::empty(),
        current_function: FunctionType::NoFunction,
        current_class: ClassType::NoClass,
        table: Seq::empty(),
        errors: Seq::empty(),
    }
}


impl Resolver {
    /// Creates a resolver with no open scope and an empty table.
    pub fn new() -> (r: Resolver)
        ensures
            r@ == sp_resolver_initial(),
    {
        let r = Resolver {
            scopes: Vec::new(),
            current_function: FunctionType::NoFunction,
            current_class: ClassType::NoClass,
            table: Vec::new(),
            errors: Vec::new(),
        };
        proof {
            assert(r@.scopes =~= sp_resolver_initial().scopes);
            assert(r@.errors =~= sp_resolver_initial().errors);
        }
        r
    }

    /// Records a scoping violation; the pass continues past it.
    fn err(&mut self, token: Token, kind: ResolveErrorKind)
        ensures
            final(self)@ == sp_err(old(self)@, token@, kind),
    {
        let ghost e0 = self@.errors;
        self.errors.push(ResolveError { token, kind });
        proof {
            assert(self@.errors =~= e0.push(self.errors@.last()@));
        }
    }

    /// Opens a scope.
    fn begin_scope(&mut self)
        ensures
            final(self)@ == sp_begin_scope(old(self)@),
    {
        let ghost s0 = self@.scopes;
        self.scopes.push(Vec::new());
        proof {
            assert(self.scopes@.last()@.map_values(|p: (String, bool)| (p.0@, p.1)) =~= Seq::<
                (Seq<char>, bool),
            >::empty());
            assert(self@.scopes =~= s0.push(Seq::empty()));
        }
    }

    /// Closes the innermost scope.
    fn end_scope(&mut self)
        ensures
            final(self)@ == sp_end_scope(old(self)@),
    {
        if self.scopes.len() > 0 {
            let ghost s0 = self@.scopes;
            self.scopes.pop();
            proof {
                assert(self@.scopes =~= s0.drop_last());
            }
        }
    }

    /// Pushes a binding onto the innermost scope.
    fn push_binding(&mut self, name: String, initialized: bool)
        requires
            old(self)@.scopes.len() > 0,
        ensures
            final(self)@ == (ResolverV {
                scopes: old(self)@.scopes.update(
                    old(self)@.scopes.len() - 1,
                    old(self)@.scopes.last().push((name@, initialized)),
                ),
                ..old(self)@
            }),
    {
        let ghost s0 = self@.scopes;
        let idx = self.scopes.len() - 1;
        let sc = &mut self.scopes[idx];
        let ghost sc0 = sc@.map_values(|p: (String, bool)| (p.0@, p.1));
        sc.push((name, initialized));
        proof {
            assert(self.scopes@[idx as int]@.map_values(|p: (String, bool)| (p.0@, p.1)) =~= sc0
                .push((name@, initialized)));
            assert(self@.scopes =~= s0.update(idx as int, s0.last().push((name@, initialized))));
        }
    }

    /// Declares a name in the innermost scope as not yet initialized,
    /// recording an error when the scope already binds the name.
    fn declare(&mut self, name: &Token)
        ensures
            final(self)@ == sp_declare(old(self)@, name@),
    {
        if self.scopes.len() == 0 {
            return ;
        }
        let idx = self.scopes.len() - 1;
        proof {
            assert(self@.scopes.last() == self.scopes@[idx as int]@.map_values(
                |p: (String, bool)| (p.0@, p.1),
            ));
        }
        if scope_binds(&self.scopes[idx], &name.lexeme) {
            self.err(name.clone(), ResolveErrorKind::AlreadyDefined);
        }
        self.push_binding(name.lexeme.clone(), false);
    }

    /// Marks a name in the innermost scope as initialized.
    fn define(&mut self, name: &String)
        ensures
            final(self)@ == sp_define(old(self)@, name@),
    {
        if self.scopes.len() == 0 {
            return ;
        }
        self.push_binding(name.clone(), true);
    }

    /// Records the distance from the innermost scope to the nearest scope
    /// binding the name, under the reference's slot; a name no scope binds
    /// is left global and gets no entry.
    fn resolve_local(&mut self, name: &String, slot: usize)
        ensures
            final(self)@ == sp_resolve_local(old(self)@, name@, slot),
    {
        let ghost sv = self@.scopes;
        let mut i: usize = self.scopes.len();
        proof {
            assert(sv.take(i as int) =~= sv);
        }
        while i > 0
            invariant
                i <= self.scopes.len(),
                *self == *old(self),
                sv == self@.scopes,
                sp_nearest(sv, name@) == (match sp_nearest(sv.take(i as int), name@) {
                    Option::Some(dp) => Option::Some(dp + (sv.len() - i)),
                    Option::None => Option::<int>::None,
                }),
            decreases i,
        {
            i = i - 1;
            proof {
                assert(sv.take(i + 1).last() == self.scopes@[i as int]@.map_values(
                    |p: (String, bool)| (p.0@, p.1),
                ));
                assert(sv.take(i + 1).drop_last() =~= sv.take(i as int));
            }
            if scope_binds(&self.scopes[i], name) {
                let d = self.scopes.len() - 1 - i;
                proof {
                    assert(sp_nearest(sv.take(i + 1), name@) == Option::Some(0int));
                    assert(sp_nearest(sv, name@) == Option::Some(d as int));
                }
                self.set_slot_table(slot, d);
                return ;
            }
        }
        proof {
            assert(sv.take(0) =~= Seq::<Seq<(Seq<char>, bool)>>::empty());
            assert(sp_nearest(sv, name@) is None);
        }
    }

    /// Writes a distance into the table under a slot, growing the table
    /// as needed.
    fn set_slot_table(&mut self, slot: usize, depth: usize)
        ensures
            final(self)@ == (ResolverV {
                table: sp_set_slot(old(self)@.table, slot, depth),
                ..old(self)@
            }),
    {
        if slot < self.table.len() {
            self.table.set(slot, Option::Some(depth));
        } else {
            let ghost t0 = self.table@;
            while self.table.len() < slot
                invariant
                    t0.len() <= slot,
                    self.table@.len() <= slot,
                    self.scopes == old(self).scopes,
                    self.current_function == old(self).current_function,
                    self.current_class == old(self).current_class,
                    self.errors == old(self).errors,
                    self.table@ == t0 + Seq::new(
                        (self.table@.len() - t0.len()) as nat,
                        |k: int| Option::<usize>::None,
                    ),
                decreases slot - self.table.len(),
            {
                self.table.push(Option::None);
                proof {
                    assert(self.table@ =~= t0 + Seq::new(
                        (self.table@.len() - t0.len()) as nat,
                        |k: int| Option::<usize>::None,
                    ));
                }
            }
            self.table.push(Option::Some(depth));
            proof {
                assert(self.table@ =~= sp_set_slot(t0, slot, depth));
            }
        }
    }
}

/// Whether a scope binds a name.
fn scope_binds(scope: &Vec<(String, bool)>, name: &String) -> (r: bool)
    ensures
        r == sp_scope_binds(scope@.map_values(|p: (String, bool)| (p.0@, p.1)), name@),
{
    let ghost sv = scope@.map_values(|p: (String, bool)| (p.0@, p.1));
    let mut i: usize = 0;
    while i < scope.len()
        invariant
            i <= scope.len(),
            sv == scope@.map_values(|p: (String, bool)| (p.0@, p.1)),
            forall|j: int| 0 <= j < i ==> (#[trigger] sv[j]).0 != name@,
        decreases scope.len() - i,
    {
        if scope[i].0.eq(name) {
            proof {
                assert(sv[i as int].0 == name@);
            }
            return true;
        }
        i = i + 1;
    }
    false
}

/// The newest binding of a name in a scope.
fn scope_find(scope: &Vec<(String, bool)>, name: &String) -> (r: Option<bool>)
    ensures
        r == sp_scope_find(scope@.map_values(|p: (String, bool)| (p.0@, p.1)), name@),
{
    let ghost sv = scope@.map_values(|p: (String, bool)| (p.0@, p.1));
    let mut i: usize = scope.len();
    proof {
        assert(sv.take(i as int) =~= sv);
    }
    while i > 0
        invariant
            i <= scope.len(),
            sv == scope@.map_values(|p: (String, bool)| (p.0@, p.1)),
            sp_scope_find(sv, name@) == sp_scope_find(sv.take(i as int), name@),
        decreases i,
    {
        i = i - 1;
        proof {
            assert(sv.take(i + 1).last() == (scope@[i as int].0@, scope@[i as int].1));
            assert(sv.take(i + 1).drop_last() =~= sv.take(i as int));
        }
        if scope[i].0.eq(name) {
            return Option::Some(scope[i].1);
        }
    }
    proof {
        assert(sv.take(0) =~= Seq::<(Seq<char>, bool)>::empty());
    }
    Option::None
}


impl Resolver {
    /// Resolves a whole program: the hook the driver calls between
    /// parsing and interpretation. The table and the collected errors are
    /// then read off the resolver.
    pub fn resolve(&mut self, statements: &Vec<Stmt>)
        ensures
            final(self)@ == sp_resolve_stmts(old(self)@, statements@, 0),
    {
        self.resolve_stmts(statements, 0);
    }

    /// Resolves a statement list from index `i` on.
    fn resolve_stmts(&mut self, stmts: &Vec<Stmt>, i: usize)
        ensures
            final(self)@ == sp_resolve_stmts(old(self)@, stmts@, i as int),
        decreases stmts@, stmts.len() - i, 0nat,
    {
        if i < stmts.len() {
            proof {
                assert(decreases_to!(stmts@ => stmts@[i as int]));
            }
            self.resolve_stmt(&stmts[i]);
            self.resolve_stmts(stmts, i + 1);
        }
    }

    /// Resolves a shared statement list from index `i` on.
    fn resolve_body(&mut self, stmts: &Rc<Vec<Stmt>>, i: usize)
        ensures
            final(self)@ == sp_resolve_stmts(old(self)@, stmts@, i as int),
        decreases stmts@, stmts.len() - i, 0nat,
    {
        if i < stmts.len() {
            proof {
                assert(decreases_to!(stmts@ => stmts@[i as int]));
            }
            self.resolve_stmt(&stmts[i]);
            self.resolve_body(stmts, i + 1);
        }
    }

    /// Resolves one statement.
    fn resolve_stmt(&mut self, s: &Stmt)
        ensures
            final(self)@ == sp_resolve_stmt(old(self)@, *s),
        decreases *s, 0nat, 0nat,
    {
        match s {
            Stmt::Expression(d) => self.resolve_expr(&d.expr),
            Stmt::Print(d) => self.resolve_expr(&d.expr),
            Stmt::Var(d) => {
                self.declare(&d.name);
                match &d.initializer {
                    Option::Some(e) => self.resolve_expr(e),
                    Option::None => (),
                }
                self.define(&d.name.lexeme);
            },
            Stmt::Function(d) => {
                self.declare(&d.name);
                self.define(&d.name.lexeme);
                proof {
                    assert(decreases_to!(*s => s->Function_0));
                }
                self.resolve_function(d, FunctionType::Function);
            },
            Stmt::If(d) => {
                self.resolve_expr(&d.condition);
                self.resolve_stmt(&d.then_branch);
                match &d.else_branch {
                    Option::Some(e) => self.resolve_stmt(e),
                    Option::None => (),
                }
            },
            Stmt::While(d) => {
                self.resolve_expr(&d.condition);
                self.resolve_stmt(&d.body);
            },
            Stmt::Return(d) => {
                if matches!(self.current_function, FunctionType::NoFunction) {
                    self.err(d.keyword.clone(), ResolveErrorKind::ReturnOutsideFunction);
                }
                match &d.value {
                    Option::Some(e) => {
                        if matches!(self.current_function, FunctionType::Initializer) {
                            self.err(
                                d.keyword.clone(),
                                ResolveErrorKind::ReturnValueFromInitializer,
                            );
                        } else {
                            self.resolve_expr(e);
                        }
                    },
                    Option::None => (),
                }
            },
            Stmt::Break(_) => (),
            Stmt::Block(d) => {
                self.begin_scope();
                self.resolve_stmts(&d.statements, 0);
                self.end_scope();
            },
            Stmt::Class(d) => {
                proof {
                    assert(decreases_to!(*s => s->Class_0));
                }
                self.resolve_class(d);
            },
        }
    }

    /// Resolves a function declaration's parameters and body under the
    /// given function context.
    fn resolve_function(&mut self, d: &crate::stmt::FunctionData, kind: FunctionType)
        ensures
            final(self)@ == sp_resolve_function(old(self)@, *d, kind),
        decreases d.body, d.params@.len() + 1, 0nat,
    {
        let enclosing = self.current_function;
        self.current_function = kind;
        self.begin_scope();
        self.declare_params(&d.params, 0);
        proof {
            assert(decreases_to!(d.body => d.body@));
        }
        self.resolve_body(&d.body, 0);
        self.end_scope();
        self.current_function = enclosing;
    }

    /// Declares and defines each parameter, from index `i` on.
    fn declare_params(&mut self, params: &Vec<Token>, i: usize)
        ensures
            final(self)@ == sp_declare_params(old(self)@, params@, i as int),
        decreases params.len() - i,
    {
        if i < params.len() {
            self.declare(&params[i]);
            self.define(&params[i].lexeme);
            self.declare_params(params, i + 1);
        }
    }

    /// Resolves a class statement.
    fn resolve_class(&mut self, d: &crate::stmt::ClassData)
        ensures
            final(self)@ == sp_resolve_class(old(self)@, *d),
        decreases d.methods, 0nat, 1nat,
    {
        let enclosing = self.current_class;
        self.current_class = ClassType::Class;
        self.declare(&d.name);
        self.define(&d.name.lexeme);
        match &d.superclass {
            Option::Some(sup) => {
                match sup {
                    Expr::Variable(v) => {
                        if d.name.lexeme.eq(&v.name.lexeme) {
                            self.err(v.name.clone(), ResolveErrorKind::InheritFromItself);
                        }
                    },
                    _ => (),
                }
                self.current_class = ClassType::Subclass;
                self.resolve_expr(sup);
                self.begin_scope();
                self.push_binding("super".to_owned(), true);
            },
            Option::None => (),
        }
        self.begin_scope();
        self.push_binding("this".to_owned(), true);
        self.resolve_methods(&d.methods, 0);
        self.end_scope();
        match &d.superclass {
            Option::Some(_) => self.end_scope(),
            Option::None => (),
        }
        self.current_class = enclosing;
    }

    /// Resolves a class's methods from index `i` on.
    fn resolve_methods(&mut self, methods: &Vec<Stmt>, i: usize)
        ensures
            final(self)@ == sp_resolve_methods(old(self)@, methods@, i as int),
        decreases methods@, methods.len() - i, 2nat,
    {
        if i < methods.len() {
            proof {
                assert(decreases_to!(methods@ => methods@[i as int]));
            }
            match &methods[i] {
                Stmt::Function(f) => {
                    let init_name: String = "init".to_owned();
                    let kind = if f.name.lexeme.eq(&init_name) {
                        FunctionType::Initializer
                    } else {
                        FunctionType::Method
                    };
                    proof {
                        let ghost m = methods@[i as int];
                        assert(decreases_to!(m => m->Function_0));
                    }
                    self.resolve_function(f, kind);
                },
                _ => (),
            }
            self.resolve_methods(methods, i + 1);
        }
    }

    /// Resolves one expression.
    fn resolve_expr(&mut self, e: &Expr)
        ensures
            final(self)@ == sp_resolve_expr(old(self)@, *e),
        decreases *e, 0nat,
    {
        match e {
            Expr::Literal(_) => (),
            Expr::Grouping(g) => self.resolve_expr(&g.expr),
            Expr::Logical(l) => {
                self.resolve_expr(&l.left);
                self.resolve_expr(&l.right);
            },
            Expr::Unary(u) => self.resolve_expr(&u.expr),
            Expr::Binary(b) => {
                self.resolve_expr(&b.left);
                self.resolve_expr(&b.right);
            },
            Expr::Variable(v) => {
                if self.scopes.len() > 0 {
                    let idx = self.scopes.len() - 1;
                    proof {
                        assert(self@.scopes.last() == self.scopes@[idx as int]@.map_values(
                            |p: (String, bool)| (p.0@, p.1),
                        ));
                    }
                    match scope_find(&self.scopes[idx], &v.name.lexeme) {
                        Option::Some(initialized) => {
                            if !initialized {
                                self.err(
                                    v.name.clone(),
                                    ResolveErrorKind::ReadInInitializer,
                                );
                            }
                        },
                        Option::None => (),
                    }
                }
                self.resolve_local(&v.name.lexeme, v.slot);
            },
            Expr::Assign(a) => {
                self.resolve_expr(&a.value);
                self.resolve_local(&a.name.lexeme, a.slot);
            },
            Expr::Call(c) => {
                self.resolve_expr(&c.callee);
                proof {
                    assert(decreases_to!(*e => e->Call_0));
                    assert(decreases_to!(c.arguments => c.arguments@));
                }
                self.resolve_exprs(&c.arguments, 0);
            },
            Expr::Get(g) => self.resolve_expr(&g.object),
            Expr::SetProp(sp) => {
                self.resolve_expr(&sp.value);
                self.resolve_expr(&sp.object);
            },
            Expr::This(t) => {
                if matches!(self.current_class, ClassType::NoClass) {
                    self.err(t.keyword.clone(), ResolveErrorKind::ThisOutsideClass);
                } else {
                    let this_name: String = "this".to_owned();
                    self.resolve_local(&this_name, t.slot);
                }
            },
            Expr::Super(su) => {
                match self.current_class {
                    ClassType::Subclass => (),
                    ClassType::NoClass => {
                        self.err(su.keyword.clone(), ResolveErrorKind::SuperOutsideClass);
                    },
                    ClassType::Class => {
                        self.err(
                            su.keyword.clone(),
                            ResolveErrorKind::SuperWithoutSuperclass,
                        );
                    },
                }
                let super_name: String = "super".to_owned();
                self.resolve_local(&super_name, su.slot);
            },
        }
    }

    /// Resolves an expression list from index `i` on.
    fn resolve_exprs(&mut self, es: &Vec<Expr>, i: usize)
        ensures
            final(self)@ == sp_resolve_exprs(old(self)@, es@, i as int),
        decreases es@, es.len() - i,
    {
        if i < es.len() {
            proof {
                assert(decreases_to!(es@ => es@[i as int]));
            }
            self.resolve_expr(&es[i]);
            self.resolve_exprs(es, i + 1);
        }
    }
}

} // verus!
