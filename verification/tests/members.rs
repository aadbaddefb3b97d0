use assignability::assign::{Analyzer, Config};
use assignability::errors::AssignError;
use assignability::keys::{is_key_eq, is_prop_name_eq};
use assignability::symbol::Symbol;
use assignability::ty::{
    Class, ClassMember, FnParam, Key, KeywordKind, Lit, Signature, Type, TypeElement,
};
use swc_common::{BytePos, Span, DUMMY_SP};

fn at(lo: u32, hi: u32) -> Span {
    Span::new(BytePos(lo), BytePos(hi))
}

fn kw(kind: KeywordKind) -> Type {
    Type::keyword(DUMMY_SP, kind)
}

fn ident(name: &str) -> Key {
    Key::Ident { span: DUMMY_SP, sym: Symbol::new(name) }
}

fn str_key(name: &str) -> Key {
    Key::Str { span: DUMMY_SP, value: Symbol::new(name) }
}

fn num_key(text: &str) -> Key {
    Key::Num { span: DUMMY_SP, text: Symbol::new(text) }
}

fn computed(expr: &str) -> Key {
    Key::Computed { span: DUMMY_SP, expr: Symbol::new(expr) }
}

fn prop_with(key: Key, ty: Option<Type>) -> TypeElement {
    TypeElement::Property { span: DUMMY_SP, key, optional: false, ty: ty.map(Box::new) }
}

fn prop(name: &str, ty: Type) -> TypeElement {
    prop_with(ident(name), Some(ty))
}

fn sig(param_names: &[&str], ret: Type) -> Signature {
    Signature {
        type_params: None,
        params: param_names
            .iter()
            .map(|n| FnParam {
                span: DUMMY_SP,
                name: Symbol::new(n),
                optional: false,
                ty: kw(KeywordKind::Number),
            })
            .collect(),
        ret: Box::new(ret),
    }
}

fn method(name: &str, signatures: Vec<Signature>) -> TypeElement {
    TypeElement::Method { span: DUMMY_SP, key: ident(name), signatures }
}

fn type_lit(members: Vec<TypeElement>) -> Type {
    Type::TypeLit { span: DUMMY_SP, members }
}

fn strict() -> Analyzer {
    Analyzer::new(Config { strict_null_checks: true })
}

fn undecided(left: &Type, right: &Type) -> AssignError {
    AssignError::Unimplemented { span: DUMMY_SP, left: left.to_static(), right: right.to_static() }
}

#[test]
fn keys_compare_across_kinds() {
    assert!(is_prop_name_eq(&ident("a"), &ident("a")));
    assert!(!is_prop_name_eq(&ident("a"), &ident("b")));
    assert!(is_prop_name_eq(&ident("a"), &str_key("a")));
    assert!(is_prop_name_eq(&str_key("a"), &ident("a")));
    assert!(is_prop_name_eq(&str_key("1"), &num_key("1")));
    assert!(is_prop_name_eq(&num_key("1"), &ident("1")));
    assert!(!is_prop_name_eq(&num_key("1"), &str_key("2")));
    assert!(!is_prop_name_eq(&num_key("1"), &num_key("1")));
    assert!(!is_prop_name_eq(&computed("a"), &computed("a")));
    assert!(!is_prop_name_eq(&computed("a"), &ident("a")));
    assert!(!is_prop_name_eq(&ident("a"), &computed("a")));
}

#[test]
fn identifier_keys_only() {
    let spanned = Key::Ident { span: at(3, 4), sym: Symbol::new("a") };
    assert!(is_key_eq(&ident("a"), &spanned));
    assert!(!is_key_eq(&ident("a"), &ident("b")));
    assert!(!is_key_eq(&ident("a"), &str_key("a")));
    assert!(!is_key_eq(&str_key("a"), &str_key("a")));
}

#[test]
fn property_is_found_by_spelled_key() {
    let l = type_lit(vec![prop("a", kw(KeywordKind::Number))]);
    let r = type_lit(vec![prop_with(str_key("a"), Some(kw(KeywordKind::Number)))]);
    assert_eq!(strict().assign(&l, &r, DUMMY_SP), Ok(()));
}

#[test]
fn property_type_failure_ends_the_query() {
    let l = type_lit(vec![prop("a", kw(KeywordKind::Number)), prop("b", kw(KeywordKind::Number))]);
    let r = type_lit(vec![prop("a", kw(KeywordKind::Str))]);
    let expected = AssignError::AssignFailed {
        span: DUMMY_SP,
        left: kw(KeywordKind::Number),
        right: kw(KeywordKind::Str),
        cause: vec![],
    };
    assert_eq!(strict().assign(&l, &r, DUMMY_SP), Err(expected));
}

#[test]
fn undeclared_property_type_is_any() {
    let l = type_lit(vec![prop_with(ident("a"), None)]);
    let r = type_lit(vec![prop("a", kw(KeywordKind::Str))]);
    assert_eq!(strict().assign(&l, &r, DUMMY_SP), Ok(()));
    let l2 = type_lit(vec![prop("a", kw(KeywordKind::Str))]);
    let r2 = type_lit(vec![prop_with(ident("a"), None)]);
    assert_eq!(strict().assign(&l2, &r2, DUMMY_SP), Ok(()));
}

#[test]
fn property_against_method_counts_as_missing() {
    let l = type_lit(vec![prop("a", kw(KeywordKind::Number))]);
    let r = type_lit(vec![method("a", vec![sig(&[], kw(KeywordKind::Number))])]);
    let missing = AssignError::MissingFields {
        span: DUMMY_SP,
        fields: vec![prop("a", kw(KeywordKind::Number))],
    };
    let expected = AssignError::Errors { span: DUMMY_SP, errors: vec![missing] };
    assert_eq!(strict().assign_inner(&l, &r, DUMMY_SP), Err(expected));
}

#[test]
fn a_later_property_of_the_same_key_is_found_behind_a_method() {
    let l = type_lit(vec![prop("a", kw(KeywordKind::Number))]);
    let r = type_lit(vec![
        method("a", vec![sig(&[], kw(KeywordKind::Number))]),
        prop("a", kw(KeywordKind::Number)),
    ]);
    assert_eq!(strict().assign(&l, &r, DUMMY_SP), Ok(()));
}

#[test]
fn methods_are_accepted_by_structure() {
    let l = type_lit(vec![method("m", vec![sig(&["x"], kw(KeywordKind::Void))])]);
    let same = type_lit(vec![method("m", vec![sig(&["y"], kw(KeywordKind::Void))])]);
    assert_eq!(strict().assign(&l, &same, DUMMY_SP), Ok(()));
    let other = type_lit(vec![method("m", vec![sig(&["x", "y"], kw(KeywordKind::Void))])]);
    assert_eq!(strict().assign_inner(&l, &other, DUMMY_SP), Err(undecided(&l, &other)));
    let none = type_lit(vec![]);
    assert!(strict().assign(&l, &none, DUMMY_SP).is_err());
}

#[test]
fn index_signature_is_accepted() {
    let index = TypeElement::Index {
        span: DUMMY_SP,
        key_ty: Box::new(kw(KeywordKind::Str)),
        value_ty: Box::new(kw(KeywordKind::Number)),
    };
    let l = type_lit(vec![index]);
    assert_eq!(strict().assign(&l, &type_lit(vec![]), DUMMY_SP), Ok(()));
}

#[test]
fn call_signature_needs_an_equal_element() {
    let call = |names: &[&str]| TypeElement::Call {
        span: DUMMY_SP,
        signatures: vec![sig(names, kw(KeywordKind::Str))],
    };
    let l = type_lit(vec![call(&["a"])]);
    let renamed = type_lit(vec![prop("p", kw(KeywordKind::Number)), call(&["b"])]);
    assert_eq!(strict().assign(&l, &renamed, DUMMY_SP), Ok(()));
    let other = type_lit(vec![call(&["a", "b"])]);
    let missing = AssignError::MissingFields { span: DUMMY_SP, fields: vec![call(&["a"])] };
    let expected = AssignError::Errors { span: DUMMY_SP, errors: vec![missing] };
    assert_eq!(strict().assign_inner(&l, &other, DUMMY_SP), Err(expected));
}

#[test]
fn interface_target_and_interface_source() {
    let l = Type::Interface {
        span: DUMMY_SP,
        name: Symbol::new("A"),
        body: vec![prop("x", kw(KeywordKind::Number))],
        extends: vec![],
    };
    let r = Type::Interface {
        span: DUMMY_SP,
        name: Symbol::new("B"),
        body: vec![prop("x", kw(KeywordKind::Number)), prop("y", kw(KeywordKind::Str))],
        extends: vec![],
    };
    assert_eq!(strict().assign(&l, &r, DUMMY_SP), Ok(()));
    assert!(strict().assign(&r, &l, DUMMY_SP).is_err());
}

#[test]
fn class_source_must_have_a_constructor() {
    let ctor = TypeElement::Constructor { span: DUMMY_SP, signatures: vec![] };
    let l = Type::Interface {
        span: at(1, 2),
        name: Symbol::new("New"),
        body: vec![ctor],
        extends: vec![],
    };
    let with = Type::Class(Class {
        span: at(3, 4),
        name: Symbol::new("C"),
        body: vec![ClassMember::Constructor { span: DUMMY_SP, signatures: vec![] }],
    });
    assert_eq!(strict().assign(&l, &with, at(9, 9)), Ok(()));
    let without = Type::Class(Class { span: at(3, 4), name: Symbol::new("C"), body: vec![] });
    let required = AssignError::ConstructorRequired { span: at(9, 9), lhs: at(1, 2), rhs: at(3, 4) };
    let expected = AssignError::Errors { span: at(9, 9), errors: vec![required] };
    assert_eq!(strict().assign_inner(&l, &without, at(9, 9)), Err(expected));
    let demanding = type_lit(vec![prop("x", kw(KeywordKind::Number))]);
    assert_eq!(
        strict().assign_inner(&demanding, &with, DUMMY_SP),
        Err(undecided(&demanding, &with))
    );
}

#[test]
fn class_instance_source_must_declare_the_property() {
    let cls = Class {
        span: DUMMY_SP,
        name: Symbol::new("C"),
        body: vec![ClassMember::Property {
            span: DUMMY_SP,
            key: ident("x"),
            is_static: false,
            ty: None,
        }],
    };
    let r = Type::ClassInstance { span: DUMMY_SP, cls, type_args: vec![] };
    let l = type_lit(vec![prop("x", kw(KeywordKind::Number))]);
    assert_eq!(strict().assign(&l, &r, DUMMY_SP), Ok(()));
    let l2 = type_lit(vec![prop("y", kw(KeywordKind::Number))]);
    assert_eq!(strict().assign_inner(&l2, &r, DUMMY_SP), Err(undecided(&l2, &r)));
    let l3 = type_lit(vec![prop_with(str_key("x"), None)]);
    assert_eq!(strict().assign_inner(&l3, &r, DUMMY_SP), Err(undecided(&l3, &r)));
}

#[test]
fn shapes_that_are_no_objects_fail_outright() {
    let l = type_lit(vec![prop("x", kw(KeywordKind::Number))]);
    let lit = Type::Lit(Lit::Bool { span: DUMMY_SP, value: true });
    let arr = Type::Array { span: DUMMY_SP, elem: Box::new(kw(KeywordKind::Number)) };
    let tup = Type::Tuple { span: DUMMY_SP, elems: vec![] };
    for r in [lit, arr, tup] {
        let expected = AssignError::AssignFailed {
            span: DUMMY_SP,
            left: l.to_static(),
            right: r.to_static(),
            cause: vec![],
        };
        assert_eq!(strict().assign(&l, &r, DUMMY_SP), Err(expected));
        assert_eq!(strict().assign(&type_lit(vec![]), &r, DUMMY_SP), Ok(()));
    }
    assert_eq!(strict().assign(&l, &kw(KeywordKind::Number), DUMMY_SP), Ok(()));
}

#[test]
fn equality_ignores_spans_and_optionally_names() {
    let a = Type::Interface {
        span: at(1, 2),
        name: Symbol::new("A"),
        body: vec![prop("x", Type::keyword(at(5, 6), KeywordKind::Number))],
        extends: vec![],
    };
    let a_elsewhere = Type::Interface {
        span: at(7, 8),
        name: Symbol::new("A"),
        body: vec![prop("x", kw(KeywordKind::Number))],
        extends: vec![],
    };
    let b = Type::Interface {
        span: DUMMY_SP,
        name: Symbol::new("B"),
        body: vec![prop("x", kw(KeywordKind::Number))],
        extends: vec![],
    };
    assert!(a.eq_ignore_span(&a_elsewhere));
    assert!(!a.eq_ignore_span(&b));
    assert!(a.eq_ignore_name_and_span(&b));
    assert!(!a.eq_ignore_name_and_span(&kw(KeywordKind::Number)));
    assert_ne!(a, a_elsewhere);
}

#[test]
fn symbols_compare_by_text() {
    let a = Symbol::new("a long enough name to be interned out of line");
    let b = Symbol::new("a long enough name to be interned out of line");
    assert!(a.same(&b));
    assert!(!a.same(&Symbol::new("b")));
    assert!(a.spells("a long enough name to be interned out of line"));
    assert!(!a.spells("a"));
    assert!(a.clone().same(&a));
}
