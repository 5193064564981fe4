//! The host-side model of guest values.
//!
//! The scripting engine is dynamically typed: a guest value is an integer,
//! a float, a boolean, a string, an array, a record with named fields, a
//! function reference, or the unit value.  The bridge mirrors that shape in
//! [`Val`], a closed tagged union, so that every extraction point in the
//! builtins is one exhaustive match that fails on mismatched kinds.
//!
//! Floats never take part in any host-side computation; a float is carried
//! through opaquely as the engine value it arrived as (see
//! [`crate::engine::EngineFloat`]).
//!
//! The mathematical model of a value is [`GuestVal`]: strings become
//! `Seq<char>`, arrays become `Seq<GuestVal>`, and records become ordered
//! sequences of `(name, value)` pairs with pairwise-distinct names.
//! Record semantics (lookup and upsert) are given by [`rec_lookup`] and
//! [`rec_set`].

use vstd::prelude::*;

use crate::engine::EngineFloat;

verus! {

broadcast use vstd::std_specs::vec::group_vec_axioms, vstd::seq::axiom_seq_index_decreases;

/// A guest value, as the host sees it.
pub enum Val {
    Int(i32),
    Float(EngineFloat),
    Bool(bool),
    Str(String),
    Array(Vec<Val>),
    Struct(StructVal),
    Function(smpl::interpreter::FnHandle),
    Unit,
}

/// A guest record: named fields in insertion order.
pub struct StructVal {
    pub(crate) fields: Vec<(String, Val)>,
}

/// The mathematical shape of a guest value.
pub enum GuestVal {
    Int(i32),
    Float(EngineFloat),
    Bool(bool),
    Str(Seq<char>),
    Arr(Seq<GuestVal>),
    Rec(Seq<(Seq<char>, GuestVal)>),
    Fun(smpl::interpreter::FnHandle),
    Unit,
}

/// First-match lookup of `name` among the fields `fs`.
pub open spec fn rec_lookup(fs: Seq<(Seq<char>, GuestVal)>, name: Seq<char>) -> Option<GuestVal>
    decreases fs.len(),
{
    if fs.len() == 0 {
        None
    } else if fs[0].0 == name {
        Some(fs[0].1)
    } else {
        rec_lookup(fs.drop_first(), name)
    }
}

/// Upsert: replace the first binding of `name` in place, or append one.
pub open spec fn rec_set(
    fs: Seq<(Seq<char>, GuestVal)>,
    name: Seq<char>,
    v: GuestVal,
) -> Seq<(Seq<char>, GuestVal)>
    decreases fs.len(),
{
    if fs.len() == 0 {
        seq![(name, v)]
    } else if fs[0].0 == name {
        seq![(name, v)] + fs.drop_first()
    } else {
        seq![fs[0]] + rec_set(fs.drop_first(), name, v)
    }
}

/// The field names of a record are pairwise distinct.
pub open spec fn unique_keys(fs: Seq<(Seq<char>, GuestVal)>) -> bool {
    forall|i: int, j: int| 0 <= i < j < fs.len() ==> fs[i].0 != fs[j].0
}

impl GuestVal {
    /// Every record nested in the value has pairwise-distinct field names.
    pub open spec fn wf(self) -> bool
        decreases self,
    {
        match self {
            GuestVal::Arr(vs) => forall|i: int| 0 <= i < vs.len() ==> #[trigger] vs[i].wf(),
            GuestVal::Rec(fs) => unique_keys(fs) && forall|i: int|
                0 <= i < fs.len() ==> (#[trigger] fs[i].1).wf(),
            _ => true,
        }
    }
}

/// The model of a sequence of values (an array's elements).
pub open(crate) spec fn vals_view(vs: Seq<Val>) -> Seq<GuestVal>
    decreases vs,
{
    if vs.len() == 0 {
        Seq::empty()
    } else {
        vals_view(vs.drop_last()).push(vs.last()@)
    }
}

/// The model of a record's field list.
pub open(crate) spec fn pairs_view(ps: Seq<(String, Val)>) -> Seq<(Seq<char>, GuestVal)>
    decreases ps,
{
    if ps.len() == 0 {
        Seq::empty()
    } else {
        pairs_view(ps.drop_last()).push((ps.last().0@, ps.last().1@))
    }
}

impl View for Val {
    type V = GuestVal;

    open(crate) spec fn view(&self) -> GuestVal
        decreases self,
    {
        match self {
            Val::Int(i) => GuestVal::Int(*i),
            Val::Float(f) => GuestVal::Float(*f),
            Val::Bool(b) => GuestVal::Bool(*b),
            Val::Str(s) => GuestVal::Str(s@),
            Val::Array(vs) => GuestVal::Arr(vals_view(vs@)),
            Val::Struct(s) => GuestVal::Rec(s@),
            Val::Function(h) => GuestVal::Fun(*h),
            Val::Unit => GuestVal::Unit,
        }
    }
}

impl View for StructVal {
    type V = Seq<(Seq<char>, GuestVal)>;

    open(crate) spec fn view(&self) -> Seq<(Seq<char>, GuestVal)>
        decreases self,
    {
        pairs_view(self.fields@)
    }
}

/// `vals_view` is the pointwise model of its argument.
pub proof fn lemma_vals_view(vs: Seq<Val>)
    ensures
        vals_view(vs).len() == vs.len(),
        forall|i: int| 0 <= i < vs.len() ==> vals_view(vs)[i] == vs[i]@,
    decreases vs.len(),
{
    if vs.len() > 0 {
        lemma_vals_view(vs.drop_last());
        assert(vals_view(vs) == vals_view(vs.drop_last()).push(vs.last()@));
        assert forall|i: int| 0 <= i < vs.len() implies vals_view(vs)[i] == vs[i]@ by {
            if i < vs.len() - 1 {
                assert(vs.drop_last()[i] == vs[i]);
                assert(vals_view(vs)[i] == vals_view(vs.drop_last())[i]);
            } else {
                assert(vals_view(vs)[i] == vs.last()@);
            }
        }
    }
}

/// `pairs_view` is the pointwise model of its argument.
pub proof fn lemma_pairs_view(ps: Seq<(String, Val)>)
    ensures
        pairs_view(ps).len() == ps.len(),
        forall|i: int| 0 <= i < ps.len() ==> pairs_view(ps)[i] == (ps[i].0@, ps[i].1@),
    decreases ps.len(),
{
    if ps.len() > 0 {
        lemma_pairs_view(ps.drop_last());
        assert(pairs_view(ps) == pairs_view(ps.drop_last()).push((ps.last().0@, ps.last().1@)));
        assert forall|i: int| 0 <= i < ps.len() implies pairs_view(ps)[i] == (
        ps[i].0@,
        ps[i].1@,
        ) by {
            if i < ps.len() - 1 {
                assert(ps.drop_last()[i] == ps[i]);
                assert(pairs_view(ps)[i] == pairs_view(ps.drop_last())[i]);
            } else {
                assert(pairs_view(ps)[i] == (ps.last().0@, ps.last().1@));
            }
        }
    }
}

/// Index of the first binding of `name` in `fs`, or `fs.len()` if none.
pub open spec fn first_key_index(fs: Seq<(Seq<char>, GuestVal)>, name: Seq<char>) -> int
    decreases fs.len(),
{
    if fs.len() == 0 {
        0
    } else if fs[0].0 == name {
        0
    } else {
        1 + first_key_index(fs.drop_first(), name)
    }
}

/// `first_key_index` finds the first binding of `name`, and `rec_lookup`
/// returns exactly that binding's value.
pub proof fn lemma_first_key_index(fs: Seq<(Seq<char>, GuestVal)>, name: Seq<char>)
    ensures
        0 <= first_key_index(fs, name) <= fs.len(),
        first_key_index(fs, name) < fs.len() ==> fs[first_key_index(fs, name)].0 == name,
        first_key_index(fs, name) < fs.len() ==> rec_lookup(fs, name) == Some(
            fs[first_key_index(fs, name)].1,
        ),
        forall|j: int| 0 <= j < first_key_index(fs, name) ==> (#[trigger] fs[j]).0 != name,
        first_key_index(fs, name) == fs.len() ==> rec_lookup(fs, name) is None,
    decreases fs.len(),
{
    if fs.len() == 0 {
    } else if fs[0].0 == name {
    } else {
        lemma_first_key_index(fs.drop_first(), name);
        let k = first_key_index(fs, name);
        assert forall|j: int| 0 <= j < k implies (#[trigger] fs[j]).0 != name by {
            if j > 0 {
                assert(fs.drop_first()[j - 1] == fs[j]);
            }
        }
        if k < fs.len() {
            assert(fs.drop_first()[k - 1] == fs[k]);
        }
    }
}

/// `rec_set` either updates the first binding of `name` in place or
/// appends a fresh binding at the end.
pub proof fn lemma_rec_set_shape(fs: Seq<(Seq<char>, GuestVal)>, name: Seq<char>, v: GuestVal)
    ensures
        first_key_index(fs, name) < fs.len() ==> rec_set(fs, name, v) == fs.update(
            first_key_index(fs, name),
            (name, v),
        ),
        first_key_index(fs, name) == fs.len() ==> rec_set(fs, name, v) == fs.push((name, v)),
    decreases fs.len(),
{
    lemma_first_key_index(fs, name);
    if fs.len() == 0 {
        assert(rec_set(fs, name, v) =~= fs.push((name, v)));
    } else if fs[0].0 == name {
        assert(rec_set(fs, name, v) =~= fs.update(0, (name, v)));
    } else {
        lemma_rec_set_shape(fs.drop_first(), name, v);
        let k = first_key_index(fs, name);
        if k < fs.len() {
            assert(rec_set(fs.drop_first(), name, v) == fs.drop_first().update(k - 1, (name, v)));
            assert(rec_set(fs, name, v) =~= fs.update(k, (name, v)));
        } else {
            assert(rec_set(fs.drop_first(), name, v) == fs.drop_first().push((name, v)));
            assert(rec_set(fs, name, v) =~= fs.push((name, v)));
        }
    }
}

/// Looking a name up after an upsert: the set name maps to the new value
/// and every other name is untouched.
pub proof fn lemma_rec_lookup_set(
    fs: Seq<(Seq<char>, GuestVal)>,
    name: Seq<char>,
    v: GuestVal,
    other: Seq<char>,
)
    ensures
        rec_lookup(rec_set(fs, name, v), name) == Some(v),
        other != name ==> rec_lookup(rec_set(fs, name, v), other) == rec_lookup(fs, other),
    decreases fs.len(),
{
    let out = rec_set(fs, name, v);
    if fs.len() == 0 {
        assert(out[0] == (name, v));
        assert(out.drop_first() =~= Seq::<(Seq<char>, GuestVal)>::empty());
        assert(rec_lookup(out, name) == Some(v));
        if other != name {
            assert(rec_lookup(out, other) == rec_lookup(out.drop_first(), other));
        }
    } else if fs[0].0 == name {
        assert(out[0] == (name, v));
        assert(out.drop_first() =~= fs.drop_first());
        assert(rec_lookup(out, name) == Some(v));
        if other != name {
            assert(rec_lookup(out, other) == rec_lookup(fs.drop_first(), other));
            assert(rec_lookup(fs, other) == rec_lookup(fs.drop_first(), other));
        }
    } else {
        lemma_rec_lookup_set(fs.drop_first(), name, v, other);
        assert(out[0] == fs[0]);
        assert(out.drop_first() =~= rec_set(fs.drop_first(), name, v));
        assert(rec_lookup(out, name) == rec_lookup(rec_set(fs.drop_first(), name, v), name));
        if other != name {
            if fs[0].0 == other {
                assert(rec_lookup(out, other) == Some(fs[0].1));
                assert(rec_lookup(fs, other) == Some(fs[0].1));
            } else {
                assert(rec_lookup(out, other) == rec_lookup(
                    rec_set(fs.drop_first(), name, v),
                    other,
                ));
                assert(rec_lookup(fs, other) == rec_lookup(fs.drop_first(), other));
            }
        }
    }
}

/// An upsert keeps the field names pairwise distinct.
pub proof fn lemma_rec_set_unique(fs: Seq<(Seq<char>, GuestVal)>, name: Seq<char>, v: GuestVal)
    requires
        unique_keys(fs),
    ensures
        unique_keys(rec_set(fs, name, v)),
{
    lemma_first_key_index(fs, name);
    lemma_rec_set_shape(fs, name, v);
    let k = first_key_index(fs, name);
    let out = rec_set(fs, name, v);
    if k < fs.len() {
        assert forall|i: int, j: int| 0 <= i < j < out.len() implies out[i].0 != out[j].0 by {
            assert(fs[i].0 != fs[j].0);
        }
    } else {
        assert forall|i: int, j: int| 0 <= i < j < out.len() implies out[i].0 != out[j].0 by {
            if j < fs.len() {
                assert(fs[i].0 != fs[j].0);
            } else {
                assert(fs[i].0 != name);
            }
        }
    }
}

/// An upsert of a well-formed value into a well-formed record keeps the
/// record well-formed.
pub proof fn lemma_rec_set_wf(fs: Seq<(Seq<char>, GuestVal)>, name: Seq<char>, v: GuestVal)
    requires
        GuestVal::Rec(fs).wf(),
        v.wf(),
    ensures
        GuestVal::Rec(rec_set(fs, name, v)).wf(),
{
    lemma_rec_set_unique(fs, name, v);
    lemma_first_key_index(fs, name);
    lemma_rec_set_shape(fs, name, v);
    let out = rec_set(fs, name, v);
    assert forall|i: int| 0 <= i < out.len() implies (#[trigger] out[i]).1.wf() by {
        if i < fs.len() && out[i] == fs[i] {
            assert(fs[i].1.wf());
        }
    }
}

impl StructVal {
    /// The names of the record's fields are pairwise distinct, recursively.
    pub open spec fn wf(&self) -> bool {
        GuestVal::Rec(self@).wf()
    }

    /// An empty record.
    pub fn new() -> (r: StructVal)
        ensures
            r@ == Seq::<(Seq<char>, GuestVal)>::empty(),
            r.wf(),
    {
        let r = StructVal { fields: Vec::new() };
        proof {
            assert(r@ =~= Seq::<(Seq<char>, GuestVal)>::empty());
        }
        r
    }

    /// Index of the first field named `name`, if any.
    pub fn find_field(&self, name: &String) -> (r: Option<usize>)
        ensures
            match r {
                Some(i) => i == first_key_index(self@, name@) && i < self@.len(),
                None => first_key_index(self@, name@) == self@.len(),
            },
    {
        proof {
            lemma_pairs_view(self.fields@);
        }
        find_pair(&self.fields, name)
    }

    /// Borrow the value of the field named `name`, if any.
    pub fn get_field<'a>(&'a self, name: &String) -> (r: Option<&'a Val>)
        ensures
            match r {
                Some(v) => rec_lookup(self@, name@) == Some(v@),
                None => rec_lookup(self@, name@) is None,
            },
    {
        proof {
            lemma_first_key_index(self@, name@);
        }
        match self.find_field(name) {
            Some(i) => {
                proof {
                    lemma_pairs_view(self.fields@);
                }
                Some(&self.fields[i].1)
            },
            None => None,
        }
    }

    /// Upsert: bind `name` to `v`, replacing any previous binding in place.
    pub fn set_field(&mut self, name: String, v: Val)
        ensures
            final(self)@ == rec_set(old(self)@, name@, v@),
            old(self).wf() && v@.wf() ==> final(self).wf(),
    {
        proof {
            lemma_pairs_view(self.fields@);
            lemma_first_key_index(self@, name@);
            lemma_rec_set_shape(self@, name@, v@);
            if self.wf() && v@.wf() {
                lemma_rec_set_wf(self@, name@, v@);
            }
        }
        let ghost pre = self@;
        match self.find_field(&name) {
            Some(i) => {
                proof {
                    lemma_pairs_view(self.fields@);
                }
                self.fields.remove(i);
                self.fields.insert(i, (name, v));
                proof {
                    lemma_pairs_view(self.fields@);
                    assert(self@ =~= pre.update(i as int, (name@, v@)));
                }
            },
            None => {
                self.fields.push((name, v));
                proof {
                    lemma_pairs_view(self.fields@);
                    assert(self@ =~= pre.push((name@, v@)));
                }
            },
        }
    }

    /// Replace the value of the field at index `i`, keeping its name and
    /// position, and move the old value out.
    pub fn swap_field_value(&mut self, i: usize, v: Val) -> (r: Val)
        requires
            i < old(self)@.len(),
        ensures
            r@ == old(self)@[i as int].1,
            final(self)@ == old(self)@.update(i as int, (old(self)@[i as int].0, v@)),
    {
        let ghost pre = self@;
        proof {
            lemma_pairs_view(self.fields@);
        }
        let pair = self.fields.remove(i);
        let (name, old_v) = pair;
        self.fields.insert(i, (name, v));
        proof {
            lemma_pairs_view(self.fields@);
            assert(self@ =~= pre.update(i as int, (pre[i as int].0, v@)));
        }
        old_v
    }

    /// Move out the value bound to `name`, removing its binding, if any.
    pub fn take_field(&mut self, name: &String) -> (r: Option<Val>)
        ensures
            r is Some <==> rec_lookup(old(self)@, name@) is Some,
            r matches Some(v) ==> rec_lookup(old(self)@, name@) == Some(v@) && final(self)@ == old(
                self,
            )@.remove(first_key_index(old(self)@, name@)),
            r is None ==> final(self)@ == old(self)@,
    {
        proof {
            lemma_first_key_index(self@, name@);
            lemma_pairs_view(self.fields@);
        }
        let ghost pre = self@;
        let ghost pf = self.fields@;
        match find_pair(&self.fields, name) {
            Some(i) => {
                proof {
                    lemma_pairs_view(pf);
                    assert(pre[i as int].1 == pf[i as int].1@);
                    assert(rec_lookup(pre, name@) == Some(pre[i as int].1));
                }
                let pair = self.fields.remove(i);
                proof {
                    assert(pair == pf[i as int]);
                    lemma_pairs_view(self.fields@);
                    assert(self@ =~= pre.remove(i as int));
                }
                Some(pair.1)
            },
            None => None,
        }
    }
}

/// First index of a pair named `name` in `fields`, under the record view.
fn find_pair(fields: &Vec<(String, Val)>, name: &String) -> (r: Option<usize>)
    ensures
        match r {
            Some(i) => i == first_key_index(pairs_view(fields@), name@) && i < fields@.len(),
            None => first_key_index(pairs_view(fields@), name@) == fields@.len(),
        },
{
    proof {
        lemma_pairs_view(fields@);
        lemma_first_key_index(pairs_view(fields@), name@);
    }
    let n = fields.len();
    let mut i: usize = 0;
    while i < n
        invariant
            n == fields@.len(),
            i <= n,
            forall|j: int| 0 <= j < i ==> (#[trigger] pairs_view(fields@)[j]).0 != name@,
            first_key_index(pairs_view(fields@), name@) >= i,
        decreases n - i,
    {
        proof {
            lemma_pairs_view(fields@);
        }
        if fields[i].0 == *name {
            proof {
                lemma_first_key_index(pairs_view(fields@), name@);
                assert(pairs_view(fields@)[i as int].0 == name@);
            }
            return Some(i);
        }
        proof {
            assert(pairs_view(fields@)[i as int].0 != name@);
            if first_key_index(pairs_view(fields@), name@) == i {
                lemma_first_key_index(pairs_view(fields@), name@);
            }
        }
        i += 1;
    }
    None
}

} // verus!
