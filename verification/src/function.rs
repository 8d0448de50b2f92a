use vstd::prelude::*;

use std::rc::Rc;

use crate::stmt::Stmt;

verus! {

/// Ghost model of a closure: the declaration's pieces, with the captured
/// frame named by its handle.
pub ghost struct FunV {
    pub name: Seq<char>,
    pub params: Seq<Seq<char>>,
    pub body: Seq<Stmt>,
    pub closure: int,
    pub is_init: bool,
}

/// A closure: a function declaration paired with the frame in which it was
/// declared. It is immutable once made. Binding it to an instance makes a
/// new closure whose captured frame is a child frame defining `this`.
#[derive(Debug)]
pub struct Function {
    /// The function's name.
    pub name: String,
    /// The parameter names, in order.
    pub params: Vec<String>,
    /// The body, shared with every other closure of the same declaration.
    pub body: Rc<Vec<Stmt>>,
    /// Handle of the frame captured at the declaration site.
    pub closure: usize,
    /// Whether this is a class's `init` method, which always yields the
    /// instance being constructed.
    pub is_initializer: bool,
}

impl View for Function {
    type V = FunV;

    open spec fn view(&self) -> FunV {
        FunV {
            name: self.name@,
            params: self.params@.map_values(|s: String| s@),
            body: self.body@,
            closure: self.closure as int,
            is_init: self.is_initializer,
        }
    }
}

/// Shares an owned statement list. The list itself is not copied: every
/// clone of the handle is the same list.
#[verifier::external_body]
fn share_body(body: &Rc<Vec<Stmt>>) -> (r: Rc<Vec<Stmt>>)
    ensures
        r == *body,
{
    // Relies on Rc::clone of std: the returned handle points to the same
    // allocation as the argument.
    Rc::clone(body)
}

impl Function {
    /// Creates a closure from the pieces of a function declaration and the
    /// frame current at the declaration site.
    pub fn new(
        name: &String,
        params: &Vec<String>,
        body: &Rc<Vec<Stmt>>,
        closure: usize,
        is_initializer: bool,
    ) -> (r: Function)
        ensures
            r@ == (FunV {
                name: name@,
                params: params@.map_values(|s: String| s@),
                body: body@,
                closure: closure as int,
                is_init: is_initializer,
            }),
    {
        let r = Function {
            name: name.clone(),
            params: clone_names(params),
            body: share_body(body),
            closure,
            is_initializer,
        };
        proof {
            assert(r@.params =~= params@.map_values(|s: String| s@));
        }
        r
    }

    /// The number of parameters the closure expects.
    pub fn arity(&self) -> (r: usize)
        ensures
            r == self@.params.len(),
    {
        self.params.len()
    }
}

impl Clone for Function {
    /// Cloning a closure preserves its value; the body stays shared.
    fn clone(&self) -> (res: Function)
        ensures
            res@ == self@,
    {
        let res = Function {
            name: self.name.clone(),
            params: clone_names(&self.params),
            body: share_body(&self.body),
            closure: self.closure,
            is_initializer: self.is_initializer,
        };
        proof {
            assert(res@.params =~= self@.params);
        }
        res
    }
}

/// Copies a list of names; the copy reads the same.
pub fn clone_names(names: &Vec<String>) -> (r: Vec<String>)
    ensures
        r@.map_values(|s: String| s@) == names@.map_values(|s: String| s@),
{
    let mut r: Vec<String> = Vec::new();
    let mut i: usize = 0;
    while i < names.len()
        invariant
            i <= names.len(),
            r@.len() == i,
            forall|j: int| 0 <= j < i ==> r@[j]@ == names@[j]@,
        decreases names.len() - i,
    {
        r.push(names[i].clone());
        i = i + 1;
    }
    proof {
        assert(r@.map_values(|s: String| s@) =~= names@.map_values(|s: String| s@));
    }
    r
}

} // verus!
