use vstd::prelude::*;

use crate::error::ErrorKind;
use crate::object::{Object, ValueV};

verus! {

/// Ghost model of one scope frame: the handle of the enclosing frame, if
/// any, and the bindings made in this frame, oldest first.
pub ghost struct FrameV {
    pub enclosing: Option<int>,
    pub entries: Seq<(Seq<char>, ValueV)>,
}

/// One scope frame. Frames live in an arena (a vector owned by the
/// interpreter) and name their enclosing frame by its index there, so that
/// any number of closures can share one frame; a frame a closure captured
/// simply stays in the arena after the block that made it has exited.
/// Bindings are kept in declaration order and the newest binding of a name
/// wins, which makes redeclaration overwrite.
#[derive(Debug)]
pub struct Environment {
    /// Index of the enclosing frame in the arena, if any.
    pub enclosing: Option<usize>,
    /// The bindings of this frame, oldest first.
    pub entries: Vec<(String, Object)>,
}

impl View for Environment {
    type V = FrameV;

    open spec fn view(&self) -> FrameV {
        FrameV {
            enclosing: match self.enclosing {
                Option::Some(p) => Option::Some(p as int),
                Option::None => Option::None,
            },
            entries: self.entries@.map_values(|p: (String, Object)| (p.0@, p.1@)),
        }
    }
}

/// The binding of a name among entries: the newest entry of that name
/// wins; `None` when the name is not bound.
pub open spec fn sp_lookup(entries: Seq<(Seq<char>, ValueV)>, name: Seq<char>) -> Option<ValueV>
    decreases entries.len(),
{
    if entries.len() == 0 {
        Option::None
    } else if entries.last().0 == name {
        Option::Some(entries.last().1)
    } else {
        sp_lookup(entries.drop_last(), name)
    }
}

/// The entries after assigning to a name: the newest entry of that name is
/// replaced; `None` when the name is not bound.
pub open spec fn sp_assign_entries(
    entries: Seq<(Seq<char>, ValueV)>,
    name: Seq<char>,
    v: ValueV,
) -> Option<Seq<(Seq<char>, ValueV)>>
    decreases entries.len(),
{
    if entries.len() == 0 {
        Option::None
    } else if entries.last().0 == name {
        Option::Some(entries.update(entries.len() - 1, (name, v)))
    } else {
        match sp_assign_entries(entries.drop_last(), name, v) {
            Option::Some(e) => Option::Some(e.push(entries.last())),
            Option::None => Option::None,
        }
    }
}

/// The view of a whole arena of frames.
pub open spec fn frames_view(frames: Seq<Environment>) -> Seq<FrameV> {
    frames.map_values(|e: Environment| e@)
}

/// Chain lookup of a name: search the frame, then its enclosing frames in
/// turn; `UndefinedVariable` past the root. A frame whose enclosing handle
/// does not point to an earlier frame yields `Corrupt`; the interpreter
/// never builds such a frame.
pub open spec fn sp_env_get(frames: Seq<FrameV>, id: int, name: Seq<char>) -> Result<
    ValueV,
    ErrorKind,
>
    decreases id,
{
    if !(0 <= id < frames.len()) {
        Result::Err(ErrorKind::Corrupt)
    } else {
        match sp_lookup(frames[id].entries, name) {
            Option::Some(v) => Result::Ok(v),
            Option::None => match frames[id].enclosing {
                Option::Some(p) => if 0 <= p < id {
                    sp_env_get(frames, p, name)
                } else {
                    Result::Err(ErrorKind::Corrupt)
                },
                Option::None => Result::Err(ErrorKind::UndefinedVariable),
            },
        }
    }
}

/// Chain assignment to a name: the frames after replacing the binding in
/// the nearest frame that binds the name; `UndefinedVariable` past the
/// root, so assignment never creates a binding.
pub open spec fn sp_env_assign(frames: Seq<FrameV>, id: int, name: Seq<char>, v: ValueV) -> Result<
    Seq<FrameV>,
    ErrorKind,
>
    decreases id,
{
    if !(0 <= id < frames.len()) {
        Result::Err(ErrorKind::Corrupt)
    } else {
        match sp_assign_entries(frames[id].entries, name, v) {
            Option::Some(e) => Result::Ok(
                frames.update(id, FrameV { enclosing: frames[id].enclosing, entries: e }),
            ),
            Option::None => match frames[id].enclosing {
                Option::Some(p) => if 0 <= p < id {
                    sp_env_assign(frames, p, name, v)
                } else {
                    Result::Err(ErrorKind::Corrupt)
                },
                Option::None => Result::Err(ErrorKind::UndefinedVariable),
            },
        }
    }
}

/// The frame exactly `distance` enclosing hops above `id`: distance 0 is
/// the frame itself.
pub open spec fn sp_ancestor(frames: Seq<FrameV>, id: int, distance: nat) -> Result<int, ErrorKind>
    decreases distance,
{
    if !(0 <= id < frames.len()) {
        Result::Err(ErrorKind::Corrupt)
    } else if distance == 0 {
        Result::Ok(id)
    } else {
        match frames[id].enclosing {
            Option::Some(p) => if 0 <= p < id {
                sp_ancestor(frames, p, (distance - 1) as nat)
            } else {
                Result::Err(ErrorKind::Corrupt)
            },
            Option::None => Result::Err(ErrorKind::Corrupt),
        }
    }
}

/// Lookup at a resolved distance: walk exactly `distance` hops, then look
/// only in that frame, which the resolver guarantees binds the name.
pub open spec fn sp_env_get_at(
    frames: Seq<FrameV>,
    id: int,
    distance: nat,
    name: Seq<char>,
) -> Result<ValueV, ErrorKind> {
    match sp_ancestor(frames, id, distance) {
        Result::Ok(a) => match sp_lookup(frames[a].entries, name) {
            Option::Some(v) => Result::Ok(v),
            Option::None => Result::Err(ErrorKind::UndefinedVariable),
        },
        Result::Err(k) => Result::Err(k),
    }
}

/// Assignment at a resolved distance: walk exactly `distance` hops, then
/// assign only in that frame.
pub open spec fn sp_env_assign_at(
    frames: Seq<FrameV>,
    id: int,
    distance: nat,
    name: Seq<char>,
    v: ValueV,
) -> Result<Seq<FrameV>, ErrorKind> {
    match sp_ancestor(frames, id, distance) {
        Result::Ok(a) => match sp_assign_entries(frames[a].entries, name, v) {
            Option::Some(e) => Result::Ok(
                frames.update(a, FrameV { enclosing: frames[a].enclosing, entries: e }),
            ),
            Option::None => Result::Err(ErrorKind::UndefinedVariable),
        },
        Result::Err(k) => Result::Err(k),
    }
}

/// The view of a list of bindings.
pub open spec fn entries_view(entries: Seq<(String, Object)>) -> Seq<(Seq<char>, ValueV)> {
    entries.map_values(|p: (String, Object)| (p.0@, p.1@))
}

/// Reads the newest binding of a name among entries.
pub fn lookup_entries(entries: &Vec<(String, Object)>, name: &String) -> (r: Option<Object>)
    ensures
        match r {
            Option::Some(o) => sp_lookup(entries_view(entries@), name@) == Option::Some(o@),
            Option::None => sp_lookup(entries_view(entries@), name@) is None,
        },
{
    let ghost ev = entries_view(entries@);
    let mut i: usize = entries.len();
    proof {
        assert(ev.take(i as int) =~= ev);
    }
    while i > 0
        invariant
            i <= entries.len(),
            ev == entries_view(entries@),
            sp_lookup(ev, name@) == sp_lookup(ev.take(i as int), name@),
        decreases i,
    {
        i = i - 1;
        proof {
            assert(ev.take(i + 1).last() == (entries@[i as int].0@, entries@[i as int].1@));
            assert(ev.take(i + 1).drop_last() =~= ev.take(i as int));
        }
        if entries[i].0.eq(name) {
            return Option::Some(entries[i].1.clone());
        }
    }
    proof {
        assert(ev.take(0) =~= Seq::<(Seq<char>, ValueV)>::empty());
    }
    Option::None
}

/// When no entry binds the name, assignment misses.
proof fn lemma_assign_none(entries: Seq<(Seq<char>, ValueV)>, name: Seq<char>, v: ValueV)
    requires
        forall|k: int| 0 <= k < entries.len() ==> (#[trigger] entries[k]).0 != name,
    ensures
        sp_assign_entries(entries, name, v) is None,
    decreases entries.len(),
{
    if entries.len() > 0 {
        lemma_assign_none(entries.drop_last(), name, v);
    }
}

/// When every newer entry misses the name and entry `i` binds it, the
/// assignment replaces entry `i` and keeps everything else.
proof fn lemma_assign_skip(entries: Seq<(Seq<char>, ValueV)>, name: Seq<char>, v: ValueV, i: int)
    requires
        0 <= i < entries.len(),
        entries[i].0 == name,
        forall|k: int| i < k < entries.len() ==> (#[trigger] entries[k]).0 != name,
    ensures
        sp_assign_entries(entries, name, v) == Option::Some(entries.update(i, (name, v))),
    decreases entries.len(),
{
    if i == entries.len() - 1 {
        assert(sp_assign_entries(entries, name, v) == Option::Some(
            entries.update(entries.len() - 1, (name, v)),
        ));
    } else {
        assert(entries.last().0 != name);
        lemma_assign_skip(entries.drop_last(), name, v, i);
        assert(entries.drop_last().update(i, (name, v)).push(entries.last()) =~= entries.update(
            i,
            (name, v),
        ));
    }
}

impl Environment {
    /// Creates a frame with the given enclosing frame and no bindings.
    pub fn new(enclosing: Option<usize>) -> (r: Environment)
        ensures
            r@.enclosing == (match enclosing {
                Option::Some(p) => Option::Some(p as int),
                Option::None => Option::<int>::None,
            }),
            r@.entries == Seq::<(Seq<char>, ValueV)>::empty(),
    {
        let r = Environment { enclosing, entries: Vec::new() };
        proof {
            assert(r@.entries =~= Seq::<(Seq<char>, ValueV)>::empty());
        }
        r
    }

    /// Binds a name in this frame alone, shadowing any older binding of
    /// the name here.
    pub fn define(&mut self, name: String, value: Object)
        ensures
            final(self)@.enclosing == old(self)@.enclosing,
            final(self)@.entries == old(self)@.entries.push((name@, value@)),
    {
        let ghost n = name@;
        let ghost v = value@;
        self.entries.push((name, value));
        proof {
            assert(self@.entries =~= old(self)@.entries.push((n, v)));
        }
    }

    /// Reads a name's binding in this frame alone.
    pub fn get_here(&self, name: &String) -> (r: Option<Object>)
        ensures
            match r {
                Option::Some(o) => sp_lookup(self@.entries, name@) == Option::Some(o@),
                Option::None => sp_lookup(self@.entries, name@) is None,
            },
    {
        lookup_entries(&self.entries, name)
    }

    /// Replaces a name's binding in this frame alone; false when this
    /// frame does not bind the name, in which case nothing changes.
    pub fn assign_here(&mut self, name: &String, value: Object) -> (r: bool)
        ensures
            final(self)@.enclosing == old(self)@.enclosing,
            match sp_assign_entries(old(self)@.entries, name@, value@) {
                Option::Some(e) => r && final(self)@.entries == e,
                Option::None => !r && *final(self) == *old(self),
            },
    {
        let ghost entries0 = self@.entries;
        let mut i: usize = self.entries.len();
        while i > 0
            invariant
                i <= self.entries.len(),
                *self == *old(self),
                entries0 == self@.entries,
                forall|k: int| i <= k < entries0.len() ==> (#[trigger] entries0[k]).0 != name@,
            decreases i,
        {
            i = i - 1;
            proof {
                assert(entries0[i as int] == (
                    self.entries@[i as int].0@,
                    self.entries@[i as int].1@,
                ));
            }
            if self.entries[i].0.eq(name) {
                proof {
                    lemma_assign_skip(entries0, name@, value@, i as int);
                }
                let key = self.entries[i].0.clone();
                self.entries.set(i, (key, value));
                proof {
                    assert(self@.entries =~= entries0.update(i as int, (name@, value@)));
                }
                return true;
            }
        }
        proof {
            lemma_assign_none(entries0, name@, value@);
        }
        false
    }
}

/// Chain lookup of a name through the arena, starting at frame `id`.
pub fn get(frames: &Vec<Environment>, id: usize, name: &String) -> (r: Result<Object, ErrorKind>)
    ensures
        match r {
            Result::Ok(o) => sp_env_get(frames_view(frames@), id as int, name@) == Result::<
                ValueV,
                ErrorKind,
            >::Ok(o@),
            Result::Err(k) => sp_env_get(frames_view(frames@), id as int, name@) == Result::<
                ValueV,
                ErrorKind,
            >::Err(k),
        },
{
    let mut cur: usize = id;
    loop
        invariant
            sp_env_get(frames_view(frames@), id as int, name@) == sp_env_get(
                frames_view(frames@),
                cur as int,
                name@,
            ),
        decreases cur,
    {
        if cur >= frames.len() {
            return Result::Err(ErrorKind::Corrupt);
        }
        proof {
            assert(frames_view(frames@)[cur as int] == frames@[cur as int]@);
        }
        match frames[cur].get_here(name) {
            Option::Some(v) => {
                return Result::Ok(v);
            },
            Option::None => {
                match frames[cur].enclosing {
                    Option::Some(p) => {
                        if p < cur {
                            cur = p;
                        } else {
                            return Result::Err(ErrorKind::Corrupt);
                        }
                    },
                    Option::None => {
                        return Result::Err(ErrorKind::UndefinedVariable);
                    },
                }
            },
        }
    }
}

/// Walks exactly `distance` enclosing hops above frame `id`.
pub fn ancestor(frames: &Vec<Environment>, id: usize, distance: usize) -> (r: Result<
    usize,
    ErrorKind,
>)
    ensures
        match r {
            Result::Ok(a) => sp_ancestor(frames_view(frames@), id as int, distance as nat)
                == Result::<int, ErrorKind>::Ok(a as int) && a < frames@.len(),
            Result::Err(k) => sp_ancestor(frames_view(frames@), id as int, distance as nat)
                == Result::<int, ErrorKind>::Err(k),
        },
{
    let mut cur: usize = id;
    let mut left: usize = distance;
    loop
        invariant
            sp_ancestor(frames_view(frames@), id as int, distance as nat) == sp_ancestor(
                frames_view(frames@),
                cur as int,
                left as nat,
            ),
        decreases left,
    {
        if cur >= frames.len() {
            return Result::Err(ErrorKind::Corrupt);
        }
        if left == 0 {
            return Result::Ok(cur);
        }
        proof {
            assert(frames_view(frames@)[cur as int] == frames@[cur as int]@);
        }
        match frames[cur].enclosing {
            Option::Some(p) => {
                if p < cur {
                    cur = p;
                    left = left - 1;
                } else {
                    return Result::Err(ErrorKind::Corrupt);
                }
            },
            Option::None => {
                return Result::Err(ErrorKind::Corrupt);
            },
        }
    }
}

/// Lookup at a resolved distance through the arena.
pub fn get_at(frames: &Vec<Environment>, id: usize, distance: usize, name: &String) -> (r: Result<
    Object,
    ErrorKind,
>)
    ensures
        match r {
            Result::Ok(o) => sp_env_get_at(frames_view(frames@), id as int, distance as nat, name@)
                == Result::<ValueV, ErrorKind>::Ok(o@),
            Result::Err(k) => sp_env_get_at(frames_view(frames@), id as int, distance as nat, name@)
                == Result::<ValueV, ErrorKind>::Err(k),
        },
{
    match ancestor(frames, id, distance) {
        Result::Ok(a) => {
            proof {
                assert(frames_view(frames@)[a as int] == frames@[a as int]@);
            }
            match frames[a].get_here(name) {
                Option::Some(v) => Result::Ok(v),
                Option::None => Result::Err(ErrorKind::UndefinedVariable),
            }
        },
        Result::Err(k) => Result::Err(k),
    }
}

/// Chain assignment through the arena, starting at frame `id`.
pub fn assign(frames: &mut Vec<Environment>, id: usize, name: &String, value: Object) -> (r: Result<
    (),
    ErrorKind,
>)
    ensures
        match r {
            Result::Ok(_) => sp_env_assign(frames_view(old(frames)@), id as int, name@, value@)
                == Result::<Seq<FrameV>, ErrorKind>::Ok(frames_view(final(frames)@)),
            Result::Err(k) => sp_env_assign(frames_view(old(frames)@), id as int, name@, value@)
                == Result::<Seq<FrameV>, ErrorKind>::Err(k) && final(frames)@ == old(frames)@,
        },
{
    let mut cur: usize = id;
    loop
        invariant
            frames@ == old(frames)@,
            sp_env_assign(frames_view(frames@), id as int, name@, value@) == sp_env_assign(
                frames_view(frames@),
                cur as int,
                name@,
                value@,
            ),
        decreases cur,
    {
        if cur >= frames.len() {
            return Result::Err(ErrorKind::Corrupt);
        }
        let ghost fv0 = frames_view(frames@);
        proof {
            assert(fv0[cur as int] == frames@[cur as int]@);
        }
        let found = {
            let fr = &mut frames[cur];
            fr.assign_here(name, value.clone())
        };
        if found {
            proof {
                assert(frames_view(frames@) =~= fv0.update(
                    cur as int,
                    FrameV {
                        enclosing: fv0[cur as int].enclosing,
                        entries: frames@[cur as int]@.entries,
                    },
                ));
            }
            return Result::Ok(());
        }
        proof {
            assert(frames@ =~= old(frames)@);
        }
        match frames[cur].enclosing {
            Option::Some(p) => {
                if p < cur {
                    cur = p;
                } else {
                    return Result::Err(ErrorKind::Corrupt);
                }
            },
            Option::None => {
                return Result::Err(ErrorKind::UndefinedVariable);
            },
        }
    }
}

/// Assignment at a resolved distance through the arena.
pub fn assign_at(
    frames: &mut Vec<Environment>,
    id: usize,
    distance: usize,
    name: &String,
    value: Object,
) -> (r: Result<(), ErrorKind>)
    ensures
        match r {
            Result::Ok(_) => sp_env_assign_at(
                frames_view(old(frames)@),
                id as int,
                distance as nat,
                name@,
                value@,
            ) == Result::<Seq<FrameV>, ErrorKind>::Ok(frames_view(final(frames)@)),
            Result::Err(k) => sp_env_assign_at(
                frames_view(old(frames)@),
                id as int,
                distance as nat,
                name@,
                value@,
            ) == Result::<Seq<FrameV>, ErrorKind>::Err(k) && final(frames)@ == old(frames)@,
        },
{
    match ancestor(frames, id, distance) {
        Result::Ok(a) => {
            let ghost fv0 = frames_view(frames@);
            proof {
                assert(fv0[a as int] == frames@[a as int]@);
            }
            let found = {
                let fr = &mut frames[a];
                fr.assign_here(name, value)
            };
            if found {
                proof {
                    assert(frames_view(frames@) =~= fv0.update(
                        a as int,
                        FrameV {
                            enclosing: fv0[a as int].enclosing,
                            entries: frames@[a as int]@.entries,
                        },
                    ));
                }
                Result::Ok(())
            } else {
                proof {
                    assert(frames@ =~= old(frames)@);
                }
                Result::Err(ErrorKind::UndefinedVariable)
            }
        },
        Result::Err(k) => Result::Err(k),
    }
}


/// Walking to an ancestor depends only on the enclosing links, never on
/// the bindings, so replacing one frame's bindings moves no path.
proof fn lemma_ancestor_ignores_entries(
    frames: Seq<FrameV>,
    a: int,
    e: Seq<(Seq<char>, ValueV)>,
    id: int,
    distance: nat,
)
    requires
        0 <= a < frames.len(),
    ensures
        sp_ancestor(
            frames.update(a, FrameV { enclosing: frames[a].enclosing, entries: e }),
            id,
            distance,
        ) == sp_ancestor(frames, id, distance),
    decreases distance,
{
    let frames2 = frames.update(a, FrameV { enclosing: frames[a].enclosing, entries: e });
    if 0 <= id < frames.len() && distance > 0 {
        assert(frames2[id].enclosing == frames[id].enclosing);
        match frames[id].enclosing {
            Option::Some(p) => {
                if 0 <= p < id {
                    lemma_ancestor_ignores_entries(frames, a, e, p, (distance - 1) as nat);
                }
            },
            Option::None => {},
        }
    }
}

/// After assigning to a name among entries, the name reads as the
/// assigned value.
proof fn lemma_lookup_after_assign(
    entries: Seq<(Seq<char>, ValueV)>,
    name: Seq<char>,
    v: ValueV,
)
    requires
        sp_assign_entries(entries, name, v) is Some,
    ensures
        sp_lookup(sp_assign_entries(entries, name, v)->Some_0, name) == Option::Some(v),
    decreases entries.len(),
{
    if entries.len() > 0 {
        if entries.last().0 == name {
            let e2 = entries.update(entries.len() - 1, (name, v));
            assert(e2.last() == (name, v));
        } else {
            lemma_lookup_after_assign(entries.drop_last(), name, v);
            let sub = sp_assign_entries(entries.drop_last(), name, v)->Some_0;
            assert(sub.push(entries.last()).last() == entries.last());
            assert(sub.push(entries.last()).drop_last() =~= sub);
        }
    }
}

/// Frames are shared by reference: when two resolved references — a frame
/// and a distance each — reach the same frame, a write through the first
/// is read back through the second. This is how a closure observes every
/// later mutation of a captured scope made through any other closure
/// sharing it.
pub proof fn lemma_shared_frame_write_read(
    frames: Seq<FrameV>,
    id1: int,
    d1: nat,
    id2: int,
    d2: nat,
    a: int,
    name: Seq<char>,
    v: ValueV,
)
    requires
        sp_ancestor(frames, id1, d1) == Result::<int, ErrorKind>::Ok(a),
        sp_ancestor(frames, id2, d2) == Result::<int, ErrorKind>::Ok(a),
        sp_env_assign_at(frames, id1, d1, name, v) is Ok,
    ensures
        sp_env_get_at(
            sp_env_assign_at(frames, id1, d1, name, v)->Ok_0,
            id2,
            d2,
            name,
        ) == Result::<ValueV, ErrorKind>::Ok(v),
{
    lemma_ancestor_in_range(frames, id1, d1);
    let e2 = sp_assign_entries(frames[a].entries, name, v)->Some_0;
    let frames2 = frames.update(a, FrameV { enclosing: frames[a].enclosing, entries: e2 });
    lemma_ancestor_ignores_entries(frames, a, e2, id2, d2);
    lemma_lookup_after_assign(frames[a].entries, name, v);
    assert(frames2[a].entries == e2);
}

/// A found ancestor lies inside the arena.
proof fn lemma_ancestor_in_range(frames: Seq<FrameV>, id: int, distance: nat)
    requires
        sp_ancestor(frames, id, distance) is Ok,
    ensures
        0 <= sp_ancestor(frames, id, distance)->Ok_0 < frames.len(),
    decreases distance,
{
    if 0 <= id < frames.len() && distance > 0 {
        match frames[id].enclosing {
            Option::Some(p) => {
                if 0 <= p < id {
                    lemma_ancestor_in_range(frames, p, (distance - 1) as nat);
                }
            },
            Option::None => {},
        }
    }
}

} // verus!
