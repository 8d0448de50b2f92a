use vstd::prelude::*;

verus! {

/// Ghost model of a class: its name, the handle of its superclass, and its
/// own methods as name/closure-handle pairs. Inherited methods are not
/// listed; lookup walks the superclass chain.
pub ghost struct ClassV {
    pub name: Seq<char>,
    pub superclass: Option<int>,
    pub methods: Seq<(Seq<char>, int)>,
}

/// A class. Classes live in an arena inside the interpreter and name their
/// superclass by its index there; a class is created only after its
/// superclass, so the handle always points to an earlier slot. The methods
/// map names to closure handles; a later method of the same name wins.
#[derive(Debug)]
pub struct Class {
    /// The class's name.
    pub name: String,
    /// Handle of the superclass, if any.
    pub superclass: Option<usize>,
    /// The class's own methods: name and closure handle, oldest first.
    pub methods: Vec<(String, usize)>,
}

impl View for Class {
    type V = ClassV;

    open spec fn view(&self) -> ClassV {
        ClassV {
            name: self.name@,
            superclass: match self.superclass {
                Option::Some(s) => Option::Some(s as int),
                Option::None => Option::None,
            },
            methods: self.methods@.map_values(|p: (String, usize)| (p.0@, p.1 as int)),
        }
    }
}

/// The closure handle a method name denotes among a class's own methods:
/// the newest entry of that name wins.
pub open spec fn sp_method_lookup(methods: Seq<(Seq<char>, int)>, name: Seq<char>) -> Option<int>
    decreases methods.len(),
{
    if methods.len() == 0 {
        Option::None
    } else if methods.last().0 == name {
        Option::Some(methods.last().1)
    } else {
        sp_method_lookup(methods.drop_last(), name)
    }
}

/// Method lookup through the inheritance chain: the class's own methods
/// first, then the superclass's, and so on to the root. A handle that does
/// not point to an earlier class stops the walk; the interpreter never
/// builds such a class.
pub open spec fn sp_get_method(classes: Seq<ClassV>, id: int, name: Seq<char>) -> Option<int>
    decreases id,
{
    if !(0 <= id < classes.len()) {
        Option::None
    } else {
        match sp_method_lookup(classes[id].methods, name) {
            Option::Some(f) => Option::Some(f),
            Option::None => match classes[id].superclass {
                Option::Some(s) => if 0 <= s < id {
                    sp_get_method(classes, s, name)
                } else {
                    Option::None
                },
                Option::None => Option::None,
            },
        }
    }
}

/// Whether class `a` stands on class `c`'s inheritance chain; every class
/// stands on its own.
pub open spec fn sp_inherits(classes: Seq<ClassV>, c: int, a: int) -> bool
    decreases c,
{
    c == a || (0 <= c < classes.len() && match classes[c].superclass {
        Option::Some(s) => 0 <= s < c && sp_inherits(classes, s, a),
        Option::None => false,
    })
}

/// The view of a whole arena of classes.
pub open spec fn classes_view(classes: Seq<Class>) -> Seq<ClassV> {
    classes.map_values(|c: Class| c@)
}

/// A method found anywhere on an ancestor is found from every class that
/// inherits from that ancestor: method lookup is transitive through any
/// number of inheritance hops.
pub proof fn lemma_get_method_transitive(
    classes: Seq<ClassV>,
    c: int,
    a: int,
    name: Seq<char>,
)
    requires
        sp_inherits(classes, c, a),
        sp_get_method(classes, a, name) is Some,
        0 <= c < classes.len(),
    ensures
        sp_get_method(classes, c, name) is Some,
    decreases c,
{
    if c != a {
        match classes[c].superclass {
            Option::Some(s) => {
                lemma_get_method_transitive(classes, s, a, name);
            },
            Option::None => {},
        }
    }
}

/// Looks a method up through the inheritance chain, starting at the class
/// named by `id`.
pub fn get_method(classes: &Vec<Class>, id: usize, name: &String) -> (r: Option<usize>)
    ensures
        match r {
            Option::Some(f) => sp_get_method(classes_view(classes@), id as int, name@)
                == Option::Some(f as int),
            Option::None => sp_get_method(classes_view(classes@), id as int, name@) is None,
        },
{
    let mut cur: usize = id;
    loop
        invariant
            sp_get_method(classes_view(classes@), id as int, name@) == sp_get_method(
                classes_view(classes@),
                cur as int,
                name@,
            ),
        decreases cur,
    {
        if cur >= classes.len() {
            return Option::None;
        }
        proof {
            assert(classes_view(classes@)[cur as int] == classes@[cur as int]@);
        }
        match method_lookup_here(&classes[cur], name) {
            Option::Some(f) => {
                return Option::Some(f);
            },
            Option::None => {
                match classes[cur].superclass {
                    Option::Some(s) => {
                        if s < cur {
                            cur = s;
                        } else {
                            return Option::None;
                        }
                    },
                    Option::None => {
                        return Option::None;
                    },
                }
            },
        }
    }
}

/// Looks a method up among one class's own methods.
fn method_lookup_here(class: &Class, name: &String) -> (r: Option<usize>)
    ensures
        match r {
            Option::Some(f) => sp_method_lookup(class@.methods, name@) == Option::Some(f as int),
            Option::None => sp_method_lookup(class@.methods, name@) is None,
        },
{
    let mut i: usize = class.methods.len();
    proof {
        assert(class@.methods.take(i as int) =~= class@.methods);
    }
    while i > 0
        invariant
            i <= class.methods.len(),
            sp_method_lookup(class@.methods, name@) == sp_method_lookup(
                class@.methods.take(i as int),
                name@,
            ),
        decreases i,
    {
        i = i - 1;
        proof {
            assert(class@.methods.take(i + 1).last() == (
                class.methods@[i as int].0@,
                class.methods@[i as int].1 as int,
            ));
            assert(class@.methods.take(i + 1).drop_last() =~= class@.methods.take(i as int));
        }
        if class.methods[i].0.eq(name) {
            return Option::Some(class.methods[i].1);
        }
    }
    proof {
        assert(class@.methods.take(0) =~= Seq::<(Seq<char>, int)>::empty());
    }
    Option::None
}

/// An instance of a class: a handle to the class, shared with every other
/// instance of it, and this instance's own fields. Fields are mutable
/// after construction; a field of a name shadows any method of that name.
#[derive(Debug)]
pub struct Instance {
    /// Handle of the instance's class.
    pub class: usize,
    /// The instance's fields: name and value, oldest first; the newest
    /// entry of a name wins.
    pub fields: Vec<(String, crate::object::Object)>,
}

/// Ghost model of an instance.
pub ghost struct InstV {
    pub class: int,
    pub fields: Seq<(Seq<char>, crate::object::ValueV)>,
}

impl View for Instance {
    type V = InstV;

    open spec fn view(&self) -> InstV {
        InstV {
            class: self.class as int,
            fields: self.fields@.map_values(
                |p: (String, crate::object::Object)| (p.0@, p.1@),
            ),
        }
    }
}

/// The view of a whole arena of instances.
pub open spec fn instances_view(instances: Seq<Instance>) -> Seq<InstV> {
    instances.map_values(|i: Instance| i@)
}

} // verus!
