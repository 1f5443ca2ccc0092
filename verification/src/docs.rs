//! The documentation store: an immutable, write-once mapping from type name
//! to the type's known attributes and their types.
//!
//! The store is loaded once at startup from documentation entries supplied by
//! the host checker and never mutated afterwards. A later entry for the same
//! type name overrides an earlier one, so the spec-level lookups search the
//! entry sequence from its end.

use vstd::prelude::*;

use crate::strutil::str_eq;
use crate::ty::Ty;

verus! {

/// One documented attribute of a type: the attribute's name and its type.
pub struct DocAttr {
    pub name: String,
    pub ty: Ty,
}

/// Mathematical model of a [`DocAttr`].
pub struct DocAttrView {
    pub name: Seq<char>,
    pub ty: Seq<char>,
}

impl View for DocAttr {
    type V = DocAttrView;

    open spec fn view(&self) -> DocAttrView {
        DocAttrView { name: self.name@, ty: self.ty@ }
    }
}

impl DeepView for DocAttr {
    type V = DocAttrView;

    open spec fn deep_view(&self) -> DocAttrView {
        self.view()
    }
}

impl Clone for DocAttr {
    fn clone(&self) -> (r: Self)
        ensures
            r@ == self@,
    {
        DocAttr { name: self.name.clone(), ty: self.ty.clone() }
    }
}

/// One documented type: the type's name and its recorded attributes.
pub struct DocObject {
    pub name: String,
    pub attrs: Vec<DocAttr>,
}

/// Mathematical model of a [`DocObject`].
pub struct DocObjectView {
    pub name: Seq<char>,
    pub attrs: Seq<DocAttrView>,
}

impl View for DocObject {
    type V = DocObjectView;

    open spec fn view(&self) -> DocObjectView {
        DocObjectView { name: self.name@, attrs: self.attrs.deep_view() }
    }
}

impl DeepView for DocObject {
    type V = DocObjectView;

    open spec fn deep_view(&self) -> DocObjectView {
        self.view()
    }
}

impl Clone for DocObject {
    fn clone(&self) -> (r: Self)
        ensures
            r@ == self@,
    {
        let mut attrs: Vec<DocAttr> = Vec::new();
        let mut i: usize = 0;
        while i < self.attrs.len()
            invariant
                i <= self.attrs@.len(),
                attrs@.len() == i,
                forall|k: int| 0 <= k < i ==> attrs@[k]@ == self.attrs@[k]@,
            decreases self.attrs@.len() - i,
        {
            attrs.push(self.attrs[i].clone());
            i += 1;
        }
        proof {
            assert forall|k: int| 0 <= k < attrs@.len() implies attrs.deep_view()[k]
                == self.attrs.deep_view()[k] by {
                assert(attrs.deep_view()[k] == attrs@[k].deep_view());
                assert(self.attrs.deep_view()[k] == self.attrs@[k].deep_view());
            }
            assert(attrs.deep_view() =~= self.attrs.deep_view());
        }
        DocObject { name: self.name.clone(), attrs }
    }
}

/// The type of the attribute named `attr` among `attrs`, if recorded; the
/// last recorded entry for a name wins.
pub open spec fn attr_lookup(attrs: Seq<DocAttrView>, attr: Seq<char>) -> Option<Seq<char>>
    decreases attrs.len(),
{
    if attrs.len() == 0 {
        None
    } else if attrs.last().name == attr {
        Some(attrs.last().ty)
    } else {
        attr_lookup(attrs.drop_last(), attr)
    }
}

/// The attributes of the type named `name` among `objs`, if documented; the
/// last entry for a type name wins.
pub open spec fn obj_lookup(objs: Seq<DocObjectView>, name: Seq<char>) -> Option<Seq<DocAttrView>>
    decreases objs.len(),
{
    if objs.len() == 0 {
        None
    } else if objs.last().name == name {
        Some(objs.last().attrs)
    } else {
        obj_lookup(objs.drop_last(), name)
    }
}

/// Whether the store recognizes `name` as a known type at all.
pub open spec fn store_known(objs: Seq<DocObjectView>, name: Seq<char>) -> bool {
    obj_lookup(objs, name) is Some
}

/// The type recorded for attribute `attr` of the type named `ty`, if any.
pub open spec fn store_attr(objs: Seq<DocObjectView>, ty: Seq<char>, attr: Seq<char>) -> Option<
    Seq<char>,
> {
    match obj_lookup(objs, ty) {
        Some(attrs) => attr_lookup(attrs, attr),
        None => None,
    }
}

/// The documentation store itself. Its model is the sequence of documentation
/// entries it was loaded from, in registration order.
pub struct DocStore {
    objs: Vec<DocObject>,
}

impl View for DocStore {
    type V = Seq<DocObjectView>;

    closed spec fn view(&self) -> Seq<DocObjectView> {
        self.objs.deep_view()
    }
}

impl DocStore {
    /// An empty store with no information.
    pub fn new() -> (s: DocStore)
        ensures
            s@ == Seq::<DocObjectView>::empty(),
    {
        let s = DocStore { objs: Vec::new() };
        proof {
            assert(s@ =~= Seq::<DocObjectView>::empty());
        }
        s
    }

    /// Register a list of documentation entries, after any already present;
    /// a later entry for an already documented type name overrides it.
    pub fn add_docs(&mut self, docs: &Vec<DocObject>)
        ensures
            final(self)@ == old(self)@ + docs.deep_view(),
    {
        let ghost base = old(self).objs@;
        let mut i: usize = 0;
        while i < docs.len()
            invariant
                i <= docs@.len(),
                self.objs@.len() == base.len() + i,
                forall|k: int| 0 <= k < base.len() ==> self.objs@[k] == base[k],
                forall|k: int| 0 <= k < i ==> self.objs@[base.len() + k]@ == docs@[k]@,
            decreases docs@.len() - i,
        {
            self.objs.push(docs[i].clone());
            i += 1;
        }
        proof {
            assert forall|k: int| 0 <= k < self.objs@.len() implies self@[k] == (old(self)@
                + docs.deep_view())[k] by {
                assert(self@[k] == self.objs@[k].deep_view());
                if k < base.len() {
                    assert(old(self)@[k] == base[k].deep_view());
                } else {
                    assert(docs.deep_view()[k - base.len()] == docs@[k - base.len()].deep_view());
                }
            }
            assert(self@ =~= old(self)@ + docs.deep_view());
        }
    }

    /// Whether the store recognizes `name` as a known type.
    pub fn known_object(&self, name: &str) -> (r: bool)
        ensures
            r == store_known(self@, name@),
    {
        self.find_obj(name).is_some()
    }

    /// The type recorded for attribute `attr` of the type named `ty`, if any.
    pub fn attribute(&self, ty: &str, attr: &str) -> (r: Option<Ty>)
        ensures
            match r {
                Some(t) => store_attr(self@, ty@, attr@) == Some(t@),
                None => store_attr(self@, ty@, attr@) is None,
            },
    {
        match self.find_obj(ty) {
            Some(i) => {
                let attrs = &self.objs[i].attrs;
                let mut j: usize = attrs.len();
                proof {
                    assert(attrs.deep_view().take(j as int) =~= attrs.deep_view());
                }
                while j > 0
                    invariant
                        j <= attrs@.len(),
                        obj_lookup(self@, ty@) == Some(attrs.deep_view()),
                        attr_lookup(attrs.deep_view(), attr@) == attr_lookup(
                            attrs.deep_view().take(j as int),
                            attr@,
                        ),
                    decreases j,
                {
                    j -= 1;
                    proof {
                        assert(attrs.deep_view().take(j + 1).drop_last() =~= attrs.deep_view()
                            .take(j as int));
                        assert(attrs.deep_view().take(j + 1).last() == attrs.deep_view()[j as int]);
                    }
                    if str_eq(attrs[j].name.as_str(), attr) {
                        let t = attrs[j].ty.clone();
                        proof {
                            assert(attrs.deep_view()[j as int] == attrs@[j as int].deep_view());
                            assert(attr_lookup(attrs.deep_view().take(j + 1), attr@) == Some(
                                attrs@[j as int].ty@,
                            ));
                            assert(t@ == attrs@[j as int].ty@);
                        }
                        return Some(t);
                    }
                }
                proof {
                    assert(attrs.deep_view().take(0) =~= Seq::<DocAttrView>::empty());
                }
                None
            },
            None => None,
        }
    }

    /// Index of the entry that decides lookups for `name`: the last entry
    /// with that type name, if there is one.
    fn find_obj(&self, name: &str) -> (r: Option<usize>)
        ensures
            match r {
                Some(i) => i < self.objs@.len() && obj_lookup(self@, name@) == Some(
                    self.objs@[i as int]@.attrs,
                ),
                None => obj_lookup(self@, name@) is None,
            },
    {
        let mut i: usize = self.objs.len();
        proof {
            assert(self@.take(i as int) =~= self@);
        }
        while i > 0
            invariant
                i <= self.objs@.len(),
                obj_lookup(self@, name@) == obj_lookup(self@.take(i as int), name@),
            decreases i,
        {
            i -= 1;
            proof {
                assert(self@.take(i + 1).drop_last() =~= self@.take(i as int));
                assert(self@.take(i + 1).last() == self@[i as int]);
            }
            if str_eq(self.objs[i].name.as_str(), name) {
                return Some(i);
            }
        }
        proof {
            assert(self@.take(0) =~= Seq::<DocObjectView>::empty());
        }
        None
    }
}

} // verus!
