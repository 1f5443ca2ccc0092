//! Rule providers and the oracle chain that composes them.
//!
//! A rule provider answers a subset of the three oracle queries — subtype,
//! attribute, call shape — and defers on the rest. The chain holds an ordered
//! list of providers, fixed at construction: a subtype query is the
//! disjunction of the members' answers, short-circuiting on the first `true`;
//! an attribute or call-shape query is answered by the first member with a
//! decisive answer (resolved or rejected), and defers to the host checker's
//! own fallback only if every member defers.

use vstd::prelude::*;

use crate::docs::DocObject;
use crate::docs::DocObjectView;
use crate::docs::DocStore;
use crate::docs::store_attr;
use crate::docs::store_known;
use crate::strutil::str_ends_with;
use crate::strutil::str_eq;
use crate::ty::AttrAnswer;
use crate::ty::AttrVerdict;
use crate::ty::CallAnswer;
use crate::ty::CallVerdict;
use crate::ty::attr_verdict_of;
use crate::ty::call_verdict_of;

verus! {

/// A single rule provider: one concern's partial answers to the three oracle
/// queries.
pub enum RuleProvider {
    /// The naming-convention subtype rule: a candidate type is a subtype of
    /// the fixed marker type exactly when the candidate's name carries the
    /// fixed suffix that marks types implementing the capability. It answers
    /// only the subtype query.
    Naming,
    /// The documentation-backed rule over a store snapshot: resolves an
    /// attribute query when the store records the attribute, and otherwise
    /// defers. It never rejects.
    Docs(DocStore),
    /// The known-object error injector over a (narrower) store snapshot:
    /// rejects every attribute query on a type the store recognizes, and
    /// rejects every call-shape query outright. User-declared objects are
    /// data records, not namespaces or callables.
    AddErrors(DocStore),
}

/// The marker type name of the naming-convention rule.
pub open spec fn marker() -> Seq<char> {
    "provider"@
}

/// The suffix that the naming convention prescribes for types implementing
/// the marker capability.
pub open spec fn marker_suffix() -> Seq<char> {
    "Info"@
}

/// What a single provider answers to a subtype query. `false` covers both
/// denial and no opinion: this query has no distinct deferral state.
pub open spec fn provider_subtype(p: RuleProvider, require: Seq<char>, got: Seq<char>) -> bool {
    match p {
        RuleProvider::Naming => require == marker() && marker_suffix().is_suffix_of(got),
        _ => false,
    }
}

/// What a single provider answers to an attribute query.
pub open spec fn provider_attribute(p: RuleProvider, ty: Seq<char>, attr: Seq<char>) -> AttrVerdict {
    match p {
        RuleProvider::Naming => AttrVerdict::Defer,
        RuleProvider::Docs(d) => match store_attr(d@, ty, attr) {
            Some(t) => AttrVerdict::Resolved(t),
            None => AttrVerdict::Defer,
        },
        RuleProvider::AddErrors(d) => if store_known(d@, ty) {
            AttrVerdict::Rejected
        } else {
            AttrVerdict::Defer
        },
    }
}

/// What a single provider answers to a call-shape query.
pub open spec fn provider_call_shape(p: RuleProvider, ty: Seq<char>) -> CallVerdict {
    match p {
        RuleProvider::AddErrors(_) => CallVerdict::Rejected,
        _ => CallVerdict::Defer,
    }
}

/// The chain's subtype answer: the disjunction of the members' answers, in
/// order.
pub open spec fn chain_subtype(members: Seq<RuleProvider>, require: Seq<char>, got: Seq<char>) -> bool
    decreases members.len(),
{
    if members.len() == 0 {
        false
    } else {
        provider_subtype(members.first(), require, got) || chain_subtype(
            members.drop_first(),
            require,
            got,
        )
    }
}

/// The merged attribute answer of the whole chain: an early member that
/// resolves or rejects decides; a member with no opinion passes the query on.
pub open spec fn chain_attribute(members: Seq<RuleProvider>, ty: Seq<char>, attr: Seq<char>) -> AttrVerdict
    decreases members.len(),
{
    if members.len() == 0 {
        AttrVerdict::Defer
    } else {
        match provider_attribute(members.first(), ty, attr) {
            AttrVerdict::Defer => chain_attribute(members.drop_first(), ty, attr),
            v => v,
        }
    }
}

/// The merged call-shape answer of the whole chain: an early member that
/// resolves or rejects decides; a member with no opinion passes the query on.
pub open spec fn chain_call_shape(members: Seq<RuleProvider>, ty: Seq<char>) -> CallVerdict
    decreases members.len(),
{
    if members.len() == 0 {
        CallVerdict::Defer
    } else {
        match provider_call_shape(members.first(), ty) {
            CallVerdict::Defer => chain_call_shape(members.drop_first(), ty),
            v => v,
        }
    }
}

impl RuleProvider {
    /// This provider's subtype answer.
    pub fn subtype(&self, require: &str, got: &str) -> (r: bool)
        ensures
            r == provider_subtype(*self, require@, got@),
    {
        match self {
            RuleProvider::Naming => str_eq(require, "provider") && str_ends_with(got, "Info"),
            _ => false,
        }
    }

    /// This provider's attribute answer; `None` defers to the next provider.
    pub fn attribute(&self, ty: &str, attr: &str) -> (r: Option<AttrAnswer>)
        ensures
            attr_verdict_of(r) == provider_attribute(*self, ty@, attr@),
    {
        match self {
            RuleProvider::Naming => None,
            RuleProvider::Docs(d) => match d.attribute(ty, attr) {
                Some(t) => Some(AttrAnswer::Resolved(t)),
                None => None,
            },
            RuleProvider::AddErrors(d) => if d.known_object(ty) {
                Some(AttrAnswer::Rejected)
            } else {
                None
            },
        }
    }

    /// This provider's call-shape answer; `None` defers to the next
    /// provider.
    pub fn as_function(&self, ty: &str) -> (r: Option<CallAnswer>)
        ensures
            call_verdict_of(r) == provider_call_shape(*self, ty@),
    {
        match self {
            RuleProvider::AddErrors(_) => Some(CallAnswer::Rejected),
            _ => None,
        }
    }
}

/// The composite oracle: an ordered, non-empty list of rule providers, fixed
/// at construction. Order encodes precedence.
pub struct OracleChain {
    members: Vec<RuleProvider>,
}

impl View for OracleChain {
    type V = Seq<RuleProvider>;

    closed spec fn view(&self) -> Seq<RuleProvider> {
        self.members@
    }
}

impl OracleChain {
    /// The chain's member list is non-empty and fixed after construction.
    pub open spec fn wf(&self) -> bool {
        self@.len() > 0
    }

    /// A chain over the given providers, in precedence order.
    pub fn new(members: Vec<RuleProvider>) -> (c: OracleChain)
        requires
            members@.len() > 0,
        ensures
            c@ == members@,
            c.wf(),
    {
        OracleChain { members }
    }

    /// If we require the first type but got the second, is that acceptable?
    /// The disjunction of the members' answers, short-circuiting on the
    /// first `true`.
    pub fn subtype(&self, require: &str, got: &str) -> (r: bool)
        ensures
            r == chain_subtype(self@, require@, got@),
    {
        let n: usize = self.members.len();
        let mut i: usize = 0;
        proof {
            assert(self@.skip(0) =~= self@);
        }
        while i < n
            invariant
                n == self@.len(),
                i <= n,
                chain_subtype(self@, require@, got@) == chain_subtype(
                    self@.skip(i as int),
                    require@,
                    got@,
                ),
            decreases n - i,
        {
            if self.members[i].subtype(require, got) {
                proof {
                    assert(self@.skip(i as int).first() == self@[i as int]);
                }
                return true;
            }
            proof {
                assert(self@.skip(i as int).first() == self@[i as int]);
                assert(self@.skip(i as int).drop_first() =~= self@.skip(i + 1));
            }
            i += 1;
        }
        proof {
            assert(self@.skip(n as int) =~= Seq::<RuleProvider>::empty());
        }
        false
    }

    /// Given a type and an attribute, what is the attribute's type? The
    /// first decisive member answer wins; `None` defers to the host
    /// checker's own fallback.
    pub fn attribute(&self, ty: &str, attr: &str) -> (r: Option<AttrAnswer>)
        ensures
            attr_verdict_of(r) == chain_attribute(self@, ty@, attr@),
    {
        let n: usize = self.members.len();
        let mut i: usize = 0;
        proof {
            assert(self@.skip(0) =~= self@);
        }
        while i < n
            invariant
                n == self@.len(),
                i <= n,
                chain_attribute(self@, ty@, attr@) == chain_attribute(
                    self@.skip(i as int),
                    ty@,
                    attr@,
                ),
            decreases n - i,
        {
            proof {
                assert(self@.skip(i as int).first() == self@[i as int]);
                assert(self@.skip(i as int).drop_first() =~= self@.skip(i + 1));
            }
            let a = self.members[i].attribute(ty, attr);
            if a.is_some() {
                return a;
            }
            i += 1;
        }
        proof {
            assert(self@.skip(n as int) =~= Seq::<RuleProvider>::empty());
        }
        None
    }

    /// Can the type be called as a function, and with what signature? The
    /// first decisive member answer wins; `None` defers to the host
    /// checker's own fallback.
    pub fn as_function(&self, ty: &str) -> (r: Option<CallAnswer>)
        ensures
            call_verdict_of(r) == chain_call_shape(self@, ty@),
    {
        let n: usize = self.members.len();
        let mut i: usize = 0;
        proof {
            assert(self@.skip(0) =~= self@);
        }
        while i < n
            invariant
                n == self@.len(),
                i <= n,
                chain_call_shape(self@, ty@) == chain_call_shape(self@.skip(i as int), ty@),
            decreases n - i,
        {
            proof {
                assert(self@.skip(i as int).first() == self@[i as int]);
                assert(self@.skip(i as int).drop_first() =~= self@.skip(i + 1));
            }
            let a = self.members[i].as_function(ty);
            if a.is_some() {
                return a;
            }
            i += 1;
        }
        proof {
            assert(self@.skip(n as int) =~= Seq::<RuleProvider>::empty());
        }
        None
    }
}

/// The standard chain shape: the naming-convention rule first, then the
/// documentation-backed rule over the merge of the built-in and the
/// self-registered documentation, then the error injector over the
/// self-registered documentation alone.
pub open spec fn standard_chain(
    c: Seq<RuleProvider>,
    builtin: Seq<DocObjectView>,
    registered: Seq<DocObjectView>,
) -> bool {
    &&& c.len() == 3
    &&& c[0] == RuleProvider::Naming
    &&& c[1] is Docs
    &&& c[1]->Docs_0@ == builtin + registered
    &&& c[2] is AddErrors
    &&& c[2]->AddErrors_0@ == registered
}

/// The oracle installed into the host checker: the standard chain built from
/// the checker's own built-in documentation and the flat list of
/// self-registered documentation entries. The two stores are deliberately
/// distinct snapshots: built-in documentation never feeds the error
/// injector.
pub fn standard_oracle(builtin: &Vec<DocObject>, registered: &Vec<DocObject>) -> (c: OracleChain)
    ensures
        standard_chain(c@, builtin.deep_view(), registered.deep_view()),
        c.wf(),
{
    let mut docs = DocStore::new();
    docs.add_docs(builtin);
    docs.add_docs(registered);
    let mut docs2 = DocStore::new();
    docs2.add_docs(registered);
    proof {
        assert(Seq::<DocObjectView>::empty() + builtin.deep_view() =~= builtin.deep_view());
        assert(Seq::<DocObjectView>::empty() + registered.deep_view() =~= registered.deep_view());
    }
    let mut members: Vec<RuleProvider> = Vec::new();
    members.push(RuleProvider::Naming);
    members.push(RuleProvider::Docs(docs));
    members.push(RuleProvider::AddErrors(docs2));
    OracleChain::new(members)
}

} // verus!
