//! What the standard chain answers, proved once and for all.
//!
//! Each lemma is stated over any chain of the standard shape (see
//! [`standard_chain`]): the naming-convention rule, then the
//! documentation-backed rule over the merged store, then the error injector
//! over the self-registered store.

use vstd::prelude::*;

use crate::docs::DocObjectView;
use crate::docs::store_attr;
use crate::docs::store_known;
use crate::oracle::RuleProvider;
use crate::oracle::chain_attribute;
use crate::oracle::chain_call_shape;
use crate::oracle::chain_subtype;
use crate::oracle::marker;
use crate::oracle::marker_suffix;
use crate::oracle::provider_attribute;
use crate::oracle::provider_call_shape;
use crate::oracle::provider_subtype;
use crate::oracle::standard_chain;
use crate::ty::AttrVerdict;
use crate::ty::CallVerdict;

verus! {

/// A three-member chain's subtype answer, written out member by member.
proof fn lemma_chain3_subtype(c: Seq<RuleProvider>, require: Seq<char>, got: Seq<char>)
    requires
        c.len() == 3,
    ensures
        chain_subtype(c, require, got) == (provider_subtype(c[0], require, got)
            || provider_subtype(c[1], require, got) || provider_subtype(c[2], require, got)),
{
    reveal_with_fuel(chain_subtype, 4);
    let c1 = c.drop_first();
    let c2 = c1.drop_first();
    let c3 = c2.drop_first();
    assert(c1[0] == c[1]);
    assert(c2[0] == c[2]);
    assert(c3.len() == 0);
}

/// A three-member chain's attribute verdict, written out member by member.
proof fn lemma_chain3_attribute(c: Seq<RuleProvider>, ty: Seq<char>, attr: Seq<char>)
    requires
        c.len() == 3,
    ensures
        chain_attribute(c, ty, attr) == (match provider_attribute(c[0], ty, attr) {
            AttrVerdict::Defer => match provider_attribute(c[1], ty, attr) {
                AttrVerdict::Defer => provider_attribute(c[2], ty, attr),
                v => v,
            },
            v => v,
        }),
{
    reveal_with_fuel(chain_attribute, 4);
    let c1 = c.drop_first();
    let c2 = c1.drop_first();
    let c3 = c2.drop_first();
    assert(c1[0] == c[1]);
    assert(c2[0] == c[2]);
    assert(c3.len() == 0);
}

/// A three-member chain's call-shape verdict, written out member by member.
proof fn lemma_chain3_call_shape(c: Seq<RuleProvider>, ty: Seq<char>)
    requires
        c.len() == 3,
    ensures
        chain_call_shape(c, ty) == (match provider_call_shape(c[0], ty) {
            CallVerdict::Defer => match provider_call_shape(c[1], ty) {
                CallVerdict::Defer => provider_call_shape(c[2], ty),
                v => v,
            },
            v => v,
        }),
{
    reveal_with_fuel(chain_call_shape, 4);
    let c1 = c.drop_first();
    let c2 = c1.drop_first();
    let c3 = c2.drop_first();
    assert(c1[0] == c[1]);
    assert(c2[0] == c[2]);
    assert(c3.len() == 0);
}

/// The standard chain approves `subtype(marker, got)` exactly when `got`
/// carries the convention's suffix — marker itself included, unless it too
/// carries the suffix.
pub proof fn lemma_subtype_marker(
    c: Seq<RuleProvider>,
    builtin: Seq<DocObjectView>,
    registered: Seq<DocObjectView>,
    got: Seq<char>,
)
    requires
        standard_chain(c, builtin, registered),
    ensures
        chain_subtype(c, marker(), got) == marker_suffix().is_suffix_of(got),
{
    lemma_chain3_subtype(c, marker(), got);
}

/// For any required type other than the marker, the standard chain approves
/// no candidate at all.
pub proof fn lemma_subtype_non_marker(
    c: Seq<RuleProvider>,
    builtin: Seq<DocObjectView>,
    registered: Seq<DocObjectView>,
    require: Seq<char>,
    got: Seq<char>,
)
    requires
        standard_chain(c, builtin, registered),
        require != marker(),
    ensures
        !chain_subtype(c, require, got),
{
    lemma_chain3_subtype(c, require, got);
}

/// An attribute recorded in the merged documentation, on a type the
/// self-registered store does not recognize, resolves to its recorded type.
pub proof fn lemma_attribute_documented(
    c: Seq<RuleProvider>,
    builtin: Seq<DocObjectView>,
    registered: Seq<DocObjectView>,
    ty: Seq<char>,
    attr: Seq<char>,
    u: Seq<char>,
)
    requires
        standard_chain(c, builtin, registered),
        store_attr(builtin + registered, ty, attr) == Some(u),
        !store_known(registered, ty),
    ensures
        chain_attribute(c, ty, attr) == AttrVerdict::Resolved(u),
{
    lemma_chain3_attribute(c, ty, attr);
}

/// An attribute query on a type the self-registered store recognizes is
/// rejected, for every attribute name the merged documentation does not
/// record for that type.
pub proof fn lemma_attribute_known_object_rejected(
    c: Seq<RuleProvider>,
    builtin: Seq<DocObjectView>,
    registered: Seq<DocObjectView>,
    ty: Seq<char>,
    attr: Seq<char>,
)
    requires
        standard_chain(c, builtin, registered),
        store_known(registered, ty),
        store_attr(builtin + registered, ty, attr) is None,
    ensures
        chain_attribute(c, ty, attr) == AttrVerdict::Rejected,
{
    lemma_chain3_attribute(c, ty, attr);
}

/// Every call-shape query, on every type, is rejected by the standard chain.
pub proof fn lemma_call_shape_rejected(
    c: Seq<RuleProvider>,
    builtin: Seq<DocObjectView>,
    registered: Seq<DocObjectView>,
    ty: Seq<char>,
)
    requires
        standard_chain(c, builtin, registered),
    ensures
        chain_call_shape(c, ty) == CallVerdict::Rejected,
{
    lemma_chain3_call_shape(c, ty);
}

/// Constructing two standard chains from identical documentation inputs
/// yields observationally identical answers for all three queries on all
/// inputs.
pub proof fn lemma_construction_deterministic(
    c1: Seq<RuleProvider>,
    c2: Seq<RuleProvider>,
    builtin: Seq<DocObjectView>,
    registered: Seq<DocObjectView>,
)
    requires
        standard_chain(c1, builtin, registered),
        standard_chain(c2, builtin, registered),
    ensures
        forall|require: Seq<char>, got: Seq<char>| #[trigger] chain_subtype(c1, require, got)
            == chain_subtype(c2, require, got),
        forall|ty: Seq<char>, attr: Seq<char>| #[trigger] chain_attribute(c1, ty, attr)
            == chain_attribute(c2, ty, attr),
        forall|ty: Seq<char>| #[trigger] chain_call_shape(c1, ty) == chain_call_shape(c2, ty),
{
    assert forall|require: Seq<char>, got: Seq<char>| #[trigger] chain_subtype(c1, require, got)
        == chain_subtype(c2, require, got) by {
        lemma_chain3_subtype(c1, require, got);
        lemma_chain3_subtype(c2, require, got);
    }
    assert forall|ty: Seq<char>, attr: Seq<char>| #[trigger] chain_attribute(c1, ty, attr)
        == chain_attribute(c2, ty, attr) by {
        lemma_chain3_attribute(c1, ty, attr);
        lemma_chain3_attribute(c2, ty, attr);
    }
    assert forall|ty: Seq<char>| #[trigger] chain_call_shape(c1, ty) == chain_call_shape(c2, ty) by {
        lemma_chain3_call_shape(c1, ty);
        lemma_chain3_call_shape(c2, ty);
    }
}

} // verus!
