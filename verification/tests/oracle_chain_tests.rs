//! End-to-end behaviour of the standard oracle chain.

use oracle_chain::docs::DocAttr;
use oracle_chain::docs::DocObject;
use oracle_chain::docs::DocStore;
use oracle_chain::oracle::standard_oracle;
use oracle_chain::ty::AttrAnswer;
use oracle_chain::ty::CallAnswer;
use oracle_chain::ty::Ty;

fn obj(name: &str, attrs: &[(&str, &str)]) -> DocObject {
    DocObject {
        name: name.to_owned(),
        attrs: attrs
            .iter()
            .map(|(a, t)| DocAttr { name: (*a).to_owned(), ty: Ty::new((*t).to_owned()) })
            .collect(),
    }
}

#[test]
fn subtype_marker_with_suffix() {
    let chain = standard_oracle(&Vec::new(), &Vec::new());
    assert!(chain.subtype("provider", "FooInfo"));
    assert!(!chain.subtype("provider", "Foo"));
}

#[test]
fn subtype_marker_edge_cases() {
    let chain = standard_oracle(&Vec::new(), &Vec::new());
    // The marker itself does not carry the suffix.
    assert!(!chain.subtype("provider", "provider"));
    // The bare suffix is its own suffix.
    assert!(chain.subtype("provider", "Info"));
    // The suffix must end the name, not merely occur in it.
    assert!(!chain.subtype("provider", "InfoFoo"));
    assert!(chain.subtype("provider", "Info2Info"));
}

#[test]
fn subtype_non_marker_never_approved() {
    let chain = standard_oracle(
        &vec![obj("Label", &[("name", "string")])],
        &vec![obj("FooInfo", &[])],
    );
    assert!(!chain.subtype("record", "FooInfo"));
    assert!(!chain.subtype("Label", "Label"));
    assert!(!chain.subtype("FooInfo", "FooInfo"));
    assert!(!chain.subtype("", "FooInfo"));
}

#[test]
fn attribute_documented_builtin_resolves() {
    let builtin = vec![obj("Label", &[("name", "string"), ("package", "string")])];
    let chain = standard_oracle(&builtin, &Vec::new());
    match chain.attribute("Label", "name") {
        Some(AttrAnswer::Resolved(t)) => assert!(t.name == "string"),
        _ => panic!("expected a resolved attribute"),
    }
    // An attribute the documentation does not record defers to the host
    // checker's own fallback.
    assert!(chain.attribute("Label", "missing").is_none());
    // A type no store knows defers as well.
    assert!(chain.attribute("Unknown", "name").is_none());
}

#[test]
fn attribute_known_object_rejected() {
    let registered = vec![obj("FooInfo", &[("x", "int")])];
    let chain = standard_oracle(&Vec::new(), &registered);
    // The self-registered store recognizes the type, so an attribute it does
    // not record is rejected rather than deferred.
    match chain.attribute("FooInfo", "anything") {
        Some(AttrAnswer::Rejected) => {}
        _ => panic!("expected a rejected attribute"),
    }
    // An attribute the merged store records still resolves: the
    // documentation-backed rule precedes the error injector.
    match chain.attribute("FooInfo", "x") {
        Some(AttrAnswer::Resolved(t)) => assert!(t.name == "int"),
        _ => panic!("expected a resolved attribute"),
    }
}

#[test]
fn call_shape_always_rejected() {
    let builtin = vec![obj("Label", &[("name", "string")])];
    let registered = vec![obj("FooInfo", &[])];
    let chain = standard_oracle(&builtin, &registered);
    for ty in ["Label", "FooInfo", "Unknown", "", "provider"] {
        match chain.as_function(ty) {
            Some(CallAnswer::Rejected) => {}
            _ => panic!("expected every call shape to be rejected"),
        }
    }
}

#[test]
fn construction_idempotent() {
    let builtin = vec![obj("Label", &[("name", "string")])];
    let registered = vec![obj("FooInfo", &[("x", "int")])];
    let c1 = standard_oracle(&builtin, &registered);
    let c2 = standard_oracle(&builtin, &registered);
    let subtype_queries = [("provider", "FooInfo"), ("provider", "Foo"), ("other", "FooInfo")];
    for (req, got) in subtype_queries {
        assert!(c1.subtype(req, got) == c2.subtype(req, got));
    }
    let attr_queries = [("Label", "name"), ("Label", "missing"), ("FooInfo", "x"), ("FooInfo", "y")];
    for (ty, attr) in attr_queries {
        let a1 = c1.attribute(ty, attr);
        let a2 = c2.attribute(ty, attr);
        match (a1, a2) {
            (Some(AttrAnswer::Resolved(t1)), Some(AttrAnswer::Resolved(t2))) => {
                assert!(t1.name == t2.name)
            }
            (Some(AttrAnswer::Rejected), Some(AttrAnswer::Rejected)) => {}
            (None, None) => {}
            _ => panic!("the two chains answered differently"),
        }
    }
    for ty in ["Label", "FooInfo", "Unknown"] {
        assert!(matches!(c1.as_function(ty), Some(CallAnswer::Rejected)));
        assert!(matches!(c2.as_function(ty), Some(CallAnswer::Rejected)));
    }
}

#[test]
fn end_to_end_self_registered_provider() {
    // A user declares a provider named FooInfo, which self-registers its
    // documentation: the subtype convention accepts it, attribute access on
    // names outside its documentation is rejected, and calling it is
    // rejected.
    let registered = vec![obj("FooInfo", &[])];
    let chain = standard_oracle(&Vec::new(), &registered);
    assert!(chain.subtype("provider", "FooInfo"));
    assert!(matches!(chain.attribute("FooInfo", "anything"), Some(AttrAnswer::Rejected)));
    assert!(matches!(chain.as_function("FooInfo"), Some(CallAnswer::Rejected)));
}

#[test]
fn later_registration_overrides() {
    // The same type documented by both sources: the later registration (the
    // self-registered list) decides the merged store's answer.
    let builtin = vec![obj("Widget", &[("size", "int")])];
    let registered = vec![obj("Widget", &[("size", "string")])];
    let chain = standard_oracle(&builtin, &registered);
    match chain.attribute("Widget", "size") {
        Some(AttrAnswer::Resolved(t)) => assert!(t.name == "string"),
        _ => panic!("expected a resolved attribute"),
    }
}

#[test]
fn doc_store_queries() {
    let mut store = DocStore::new();
    store.add_docs(&vec![obj("Label", &[("name", "string")])]);
    assert!(store.known_object("Label"));
    assert!(!store.known_object("label"));
    assert!(!store.known_object(""));
    match store.attribute("Label", "name") {
        Some(t) => assert!(t.name == "string"),
        None => panic!("expected the recorded attribute"),
    }
    assert!(store.attribute("Label", "Name").is_none());
    assert!(store.attribute("Other", "name").is_none());
    // A later entry for the same type name overrides the earlier one
    // entirely: the old attribute set is gone.
    store.add_docs(&vec![obj("Label", &[("package", "string")])]);
    assert!(store.attribute("Label", "name").is_none());
    assert!(store.attribute("Label", "package").is_some());
}

#[test]
fn empty_store_chain_defers_attributes() {
    let chain = standard_oracle(&Vec::new(), &Vec::new());
    assert!(chain.attribute("Anything", "attr").is_none());
}
