//! Named types and the three-valued answers the oracle gives.
//!
//! A named type is an opaque identifier: the checker compares types by their
//! textual name only. An attribute or call-shape query is answered either
//! decisively (resolved to a type, or rejected as a type error) or not at all
//! (deferral, modelled as `None`), in which case the next rule provider in
//! the chain is consulted.

use vstd::prelude::*;

verus! {

/// A named type as the host checker sees it: an identifier with no internal
/// structure, compared by name.
pub struct Ty {
    pub name: String,
}

impl View for Ty {
    type V = Seq<char>;

    open spec fn view(&self) -> Seq<char> {
        self.name@
    }
}

impl DeepView for Ty {
    type V = Seq<char>;

    open spec fn deep_view(&self) -> Seq<char> {
        self.name@
    }
}

impl Clone for Ty {
    fn clone(&self) -> (r: Self)
        ensures
            r@ == self@,
    {
        Ty { name: self.name.clone() }
    }
}

impl Ty {
    /// A named type from its textual name.
    pub fn new(name: String) -> (t: Ty)
        ensures
            t@ == name@,
    {
        Ty { name }
    }
}

/// The signature with which a callable type may be invoked: its parameter
/// types and its result type.
pub struct FnSig {
    pub params: Vec<Ty>,
    pub ret: Ty,
}

/// Mathematical model of a [`FnSig`]: the parameter and result type names.
pub struct FnSigView {
    pub params: Seq<Seq<char>>,
    pub ret: Seq<char>,
}

impl View for FnSig {
    type V = FnSigView;

    open spec fn view(&self) -> FnSigView {
        FnSigView { params: self.params.deep_view(), ret: self.ret@ }
    }
}

/// A decisive answer to an attribute query. Deferral is modelled as the
/// `None` case of `Option<AttrAnswer>`.
pub enum AttrAnswer {
    /// The attribute exists and has the given type.
    Resolved(Ty),
    /// The attribute access is a type error the host checker must report.
    Rejected,
}

/// A decisive answer to a call-shape query. Deferral is modelled as the
/// `None` case of `Option<CallAnswer>`.
pub enum CallAnswer {
    /// The type is callable with the given signature.
    Resolved(FnSig),
    /// Calling the type is a type error the host checker must report.
    Rejected,
}

/// The full three-valued verdict of an attribute query, deferral included,
/// at the level of the mathematical model.
pub enum AttrVerdict {
    Resolved(Seq<char>),
    Rejected,
    Defer,
}

/// The full three-valued verdict of a call-shape query, deferral included,
/// at the level of the mathematical model.
pub enum CallVerdict {
    Resolved(FnSigView),
    Rejected,
    Defer,
}

/// The verdict an `Option<AttrAnswer>` stands for.
pub open spec fn attr_verdict_of(r: Option<AttrAnswer>) -> AttrVerdict {
    match r {
        Some(AttrAnswer::Resolved(t)) => AttrVerdict::Resolved(t@),
        Some(AttrAnswer::Rejected) => AttrVerdict::Rejected,
        None => AttrVerdict::Defer,
    }
}

/// The verdict an `Option<CallAnswer>` stands for.
pub open spec fn call_verdict_of(r: Option<CallAnswer>) -> CallVerdict {
    match r {
        Some(CallAnswer::Resolved(f)) => CallVerdict::Resolved(f@),
        Some(CallAnswer::Rejected) => CallVerdict::Rejected,
        None => CallVerdict::Defer,
    }
}

} // verus!
