//! The JSON values that article payloads are made of.
//!
//! The payloads of the article endpoints are shallow: an article is an
//! object whose members are scalars, arrays of scalars (the tag list), or
//! one flat object of scalars (the author record). The types here mirror
//! exactly that shape, so every decoder over them is a plain function.

use vstd::prelude::*;

verus! {

/// A scalar JSON value: a leaf of an article payload.
#[derive(Debug, Clone, PartialEq)]
pub enum JScalar {
    Null,
    Bool(bool),
    Int(i64),
    Str(String),
}

/// The mathematical model of a scalar JSON value.
pub enum JScalarV {
    Null,
    Bool(bool),
    Int(int),
    Str(Seq<char>),
}

impl View for JScalar {
    type V = JScalarV;

    open spec fn view(&self) -> JScalarV {
        match self {
            JScalar::Null => JScalarV::Null,
            JScalar::Bool(b) => JScalarV::Bool(*b),
            JScalar::Int(i) => JScalarV::Int(*i as int),
            JScalar::Str(s) => JScalarV::Str(s@),
        }
    }
}

/// A member value of an article object: a scalar, an array of scalars,
/// or a flat object whose members are scalars.
#[derive(Debug, Clone, PartialEq)]
pub enum JItem {
    Scalar(JScalar),
    Arr(Vec<JScalar>),
    Obj(Vec<(String, JScalar)>),
}

/// The mathematical model of a member value.
pub enum JItemV {
    Scalar(JScalarV),
    Arr(Seq<JScalarV>),
    Obj(Seq<(Seq<char>, JScalarV)>),
}

impl View for JItem {
    type V = JItemV;

    open spec fn view(&self) -> JItemV {
        match self {
            JItem::Scalar(s) => JItemV::Scalar(s@),
            JItem::Arr(v) => JItemV::Arr(v@.map_values(|s: JScalar| s@)),
            JItem::Obj(v) => JItemV::Obj(v@.map_values(|p: (String, JScalar)| (p.0@, p.1@))),
        }
    }
}

/// A JSON object in the shape of an article payload: an ordered list of
/// members, each a key with an item value.
#[derive(Debug, Clone, PartialEq)]
pub struct JObj {
    pub fields: Vec<(String, JItem)>,
}

impl View for JObj {
    type V = Seq<(Seq<char>, JItemV)>;

    open spec fn view(&self) -> Seq<(Seq<char>, JItemV)> {
        self.fields@.map_values(|p: (String, JItem)| (p.0@, p.1@))
    }
}

/// The value of the first member of `o` named `k`, if any: the member that
/// a decoder reads, in the order the payload gives its members.
pub open spec fn obj_index(o: Seq<(Seq<char>, JItemV)>, k: Seq<char>) -> Option<JItemV>
    decreases o.len(),
{
    if o.len() == 0 {
        None
    } else if o[0].0 == k {
        Some(o[0].1)
    } else {
        obj_index(o.drop_first(), k)
    }
}

/// The model of a flat object of scalars, as a member list.
pub open spec fn sobj_view(s: Seq<(String, JScalar)>) -> Seq<(Seq<char>, JScalarV)> {
    s.map_values(|p: (String, JScalar)| (p.0@, p.1@))
}

/// The value of the first member of a flat scalar object named `k`, if any.
pub open spec fn sobj_index(o: Seq<(Seq<char>, JScalarV)>, k: Seq<char>) -> Option<JScalarV>
    decreases o.len(),
{
    if o.len() == 0 {
        None
    } else if o[0].0 == k {
        Some(o[0].1)
    } else {
        sobj_index(o.drop_first(), k)
    }
}

/// Looks a member of a flat scalar object up by its key: the first member
/// so named, as `sobj_index` states it.
pub fn sobj_get<'a>(o: &'a Vec<(String, JScalar)>, k: &str) -> (r: Option<&'a JScalar>)
    ensures
        match r {
            Some(v) => sobj_index(sobj_view(o@), k@) == Some(v@),
            None => sobj_index(sobj_view(o@), k@) is None,
        },
{
    let n = o.len();
    let mut i: usize = 0;
    proof {
        assert(sobj_view(o@).skip(0) =~= sobj_view(o@));
    }
    while i < n
        invariant
            n == o@.len(),
            i <= n,
            sobj_index(sobj_view(o@), k@) == sobj_index(sobj_view(o@).skip(i as int), k@),
        decreases n - i,
    {
        proof {
            assert(sobj_view(o@)[i as int] == (o@[i as int].0@, o@[i as int].1@));
            assert(sobj_view(o@).skip(i as int)[0] == sobj_view(o@)[i as int]);
            assert(sobj_view(o@).skip(i as int).drop_first() =~= sobj_view(o@).skip(i as int + 1));
        }
        if str_eq(o[i].0.as_str(), k) {
            return Some(&o[i].1);
        }
        i += 1;
    }
    proof {
        assert(sobj_view(o@).skip(n as int) =~= Seq::<(Seq<char>, JScalarV)>::empty());
    }
    None
}

/// Relies on `str::chars` through `Iterator::collect`: the characters of
/// the string, in order.
#[verifier::external_body]
pub fn str_to_chars(s: &str) -> (r: Vec<char>)
    ensures
        r@ == s@,
{
    s.chars().collect()
}

/// Relies on `String: FromIterator<char>` through `Iterator::collect`:
/// the collected string holds exactly the given characters, in order.
#[verifier::external_body]
pub fn chars_to_string(v: &Vec<char>) -> (r: String)
    ensures
        r@ == v@,
{
    v.iter().collect()
}

/// Character-by-character string comparison.
pub fn str_eq(a: &str, b: &str) -> (r: bool)
    ensures
        r == (a@ == b@),
{
    let alen = a.unicode_len();
    let blen = b.unicode_len();
    if alen != blen {
        return false;
    }
    let mut i: usize = 0;
    while i < alen
        invariant
            alen == a@.len(),
            alen == b@.len(),
            i <= alen,
            forall|j: int| 0 <= j < i ==> a@[j] == b@[j],
        decreases alen - i,
    {
        if a.get_char(i) != b.get_char(i) {
            return false;
        }
        i += 1;
    }
    proof {
        assert(a@ =~= b@);
    }
    true
}

impl JObj {
    /// An object with no members yet.
    pub fn new() -> (r: JObj)
        ensures
            r@ =~= Seq::<(Seq<char>, JItemV)>::empty(),
    {
        JObj { fields: Vec::new() }
    }

    /// Appends a member at the end of the object.
    pub fn push(&mut self, k: String, v: JItem)
        ensures
            final(self)@ =~= old(self)@.push((k@, v@)),
    {
        self.fields.push((k, v));
    }

    /// Looks a member up by its key: the first member so named, as
    /// `obj_index` states it.
    pub fn get<'a>(&'a self, k: &str) -> (r: Option<&'a JItem>)
        ensures
            match r {
                Some(v) => obj_index(self@, k@) == Some(v@),
                None => obj_index(self@, k@) is None,
            },
    {
        let n = self.fields.len();
        let mut i: usize = 0;
        proof {
            assert(self@.skip(0) =~= self@);
        }
        while i < n
            invariant
                n == self.fields@.len(),
                i <= n,
                obj_index(self@, k@) == obj_index(self@.skip(i as int), k@),
            decreases n - i,
        {
            proof {
                assert(self@[i as int] == (self.fields@[i as int].0@, self.fields@[i as int].1@));
                assert(self@.skip(i as int)[0] == self@[i as int]);
                assert(self@.skip(i as int).drop_first() =~= self@.skip(i as int + 1));
            }
            if str_eq(self.fields[i].0.as_str(), k) {
                return Some(&self.fields[i].1);
            }
            i += 1;
        }
        proof {
            assert(self@.skip(n as int) =~= Seq::<(Seq<char>, JItemV)>::empty());
        }
        None
    }
}

} // verus!
