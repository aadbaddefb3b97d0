use assignability::assign::{Analyzer, Config};
use assignability::errors::AssignError;
use assignability::symbol::Symbol;
use assignability::ty::{
    Class, ClassMember, Enum, EnumMember, FnParam, Key, KeywordKind, Lit, Signature, Type,
    TypeElement, TypeParam,
};
use swc_common::{BytePos, Span, DUMMY_SP};

fn at(lo: u32, hi: u32) -> Span {
    Span::new(BytePos(lo), BytePos(hi))
}

fn kw(kind: KeywordKind) -> Type {
    Type::keyword(DUMMY_SP, kind)
}

fn number() -> Type {
    kw(KeywordKind::Number)
}

fn string() -> Type {
    kw(KeywordKind::Str)
}

fn boolean() -> Type {
    kw(KeywordKind::Boolean)
}

fn undefined() -> Type {
    kw(KeywordKind::Undefined)
}

fn str_lit(value: &str) -> Type {
    Type::Lit(Lit::Str { span: DUMMY_SP, value: Symbol::new(value), has_escape: false })
}

fn num_lit(text: &str) -> Type {
    Type::Lit(Lit::Number { span: DUMMY_SP, text: Symbol::new(text) })
}

fn bool_lit(value: bool) -> Type {
    Type::Lit(Lit::Bool { span: DUMMY_SP, value })
}

fn ident(name: &str) -> Key {
    Key::Ident { span: DUMMY_SP, sym: Symbol::new(name) }
}

fn prop(name: &str, ty: Type) -> TypeElement {
    TypeElement::Property {
        span: DUMMY_SP,
        key: ident(name),
        optional: false,
        ty: Some(Box::new(ty)),
    }
}

fn type_lit(members: Vec<TypeElement>) -> Type {
    Type::TypeLit { span: DUMMY_SP, members }
}

fn interface(name: &str, body: Vec<TypeElement>) -> Type {
    Type::Interface { span: DUMMY_SP, name: Symbol::new(name), body, extends: vec![] }
}

fn union(types: Vec<Type>) -> Type {
    Type::Union { span: DUMMY_SP, types }
}

fn intersection(types: Vec<Type>) -> Type {
    Type::Intersection { span: DUMMY_SP, types }
}

fn array(elem: Type) -> Type {
    Type::Array { span: DUMMY_SP, elem: Box::new(elem) }
}

fn tuple(elems: Vec<Type>) -> Type {
    Type::Tuple { span: DUMMY_SP, elems }
}

fn param(name: &str, constraint: Option<Type>) -> Type {
    Type::Param(TypeParam {
        span: DUMMY_SP,
        name: Symbol::new(name),
        constraint: constraint.map(Box::new),
        default: None,
    })
}

fn member(name: &str, init: Option<Lit>) -> EnumMember {
    EnumMember { span: DUMMY_SP, name: Symbol::new(name), init }
}

fn enum_type(id: &str, members: Vec<EnumMember>) -> Type {
    Type::Enum(Enum { span: DUMMY_SP, id: Symbol::new(id), members })
}

fn variant(enum_name: &str, name: &str) -> Type {
    Type::EnumVariant {
        span: DUMMY_SP,
        enum_name: Symbol::new(enum_name),
        name: Symbol::new(name),
    }
}

fn signature(params: Vec<FnParam>, ret: Type) -> Signature {
    Signature { type_params: None, params, ret: Box::new(ret) }
}

fn function(params: Vec<FnParam>, ret: Type) -> Type {
    Type::Function { span: DUMMY_SP, sig: signature(params, ret) }
}

fn fn_param(name: &str, ty: Type) -> FnParam {
    FnParam { span: DUMMY_SP, name: Symbol::new(name), optional: false, ty }
}

fn class(name: &str, body: Vec<ClassMember>) -> Class {
    Class { span: DUMMY_SP, name: Symbol::new(name), body }
}

fn lenient() -> Analyzer {
    Analyzer::new(Config { strict_null_checks: false })
}

fn strict() -> Analyzer {
    Analyzer::new(Config { strict_null_checks: true })
}

fn failed(left: Type, right: Type, cause: Vec<AssignError>) -> AssignError {
    AssignError::AssignFailed { span: DUMMY_SP, left, right, cause }
}

#[test]
fn extra_field_of_the_source_is_ignored() {
    let l = type_lit(vec![prop("x", number()), prop("y", string())]);
    let r = type_lit(vec![prop("x", number()), prop("y", string()), prop("z", boolean())]);
    assert_eq!(lenient().assign(&l, &r, DUMMY_SP), Ok(()));
}

#[test]
fn missing_field_is_reported_by_name() {
    let l = type_lit(vec![prop("x", number()), prop("y", string())]);
    let r = type_lit(vec![prop("x", number())]);
    let res = lenient().assign(&l, &r, at(3, 9));
    let missing = AssignError::MissingFields { span: at(3, 9), fields: vec![prop("y", string())] };
    let errors = AssignError::Errors { span: at(3, 9), errors: vec![missing] };
    let expected = AssignError::AssignFailed {
        span: at(3, 9),
        left: l.to_static(),
        right: r.to_static(),
        cause: vec![errors],
    };
    assert_eq!(res, Err(expected));
}

#[test]
fn missing_fields_names_b() {
    let l = type_lit(vec![prop("a", number()), prop("b", string())]);
    let r = type_lit(vec![prop("a", number())]);
    match lenient().assign_inner(&l, &r, DUMMY_SP) {
        Err(AssignError::Errors { errors, .. }) => {
            assert_eq!(errors.len(), 1);
            match &errors[0] {
                AssignError::MissingFields { fields, .. } => {
                    assert_eq!(fields, &vec![prop("b", string())]);
                },
                other => panic!("unexpected {:?}", other),
            }
        },
        other => panic!("unexpected {:?}", other),
    }
}

#[test]
fn string_literal_goes_to_union_with_string() {
    let l = union(vec![number(), string()]);
    assert_eq!(lenient().assign(&l, &str_lit("hello"), DUMMY_SP), Ok(()));
}

#[test]
fn array_takes_tuple_of_its_element_type() {
    let l = array(number());
    let r = tuple(vec![number(), number(), number()]);
    assert_eq!(lenient().assign(&l, &r, DUMMY_SP), Ok(()));
}

#[test]
fn array_rejects_tuple_with_a_foreign_element() {
    let l = array(number());
    let r = tuple(vec![number(), string()]);
    let inner = failed(number(), string(), vec![]);
    let expected = failed(l.to_static(), r.to_static(), vec![inner]);
    assert_eq!(lenient().assign(&l, &r, DUMMY_SP), Err(expected));
}

#[test]
fn array_to_array_wraps_the_element_failure() {
    let l = array(number());
    let r = array(string());
    let inner = failed(number(), string(), vec![]);
    let expected = failed(l.to_static(), r.to_static(), vec![inner]);
    assert_eq!(lenient().assign(&l, &r, DUMMY_SP), Err(expected));
    assert_eq!(lenient().assign(&array(number()), &array(number()), DUMMY_SP), Ok(()));
    let not_array = failed(array(number()), number(), vec![]);
    assert_eq!(lenient().assign(&array(number()), &number(), DUMMY_SP), Err(not_array));
}

#[test]
fn primitive_goes_to_its_wrapper() {
    assert_eq!(lenient().assign(&interface("Boolean", vec![]), &boolean(), DUMMY_SP), Ok(()));
    assert_eq!(lenient().assign(&interface("Number", vec![]), &number(), DUMMY_SP), Ok(()));
    assert_eq!(lenient().assign(&interface("String", vec![]), &string(), DUMMY_SP), Ok(()));
    assert_eq!(lenient().assign(&interface("Number", vec![]), &num_lit("42"), DUMMY_SP), Ok(()));
}

#[test]
fn wrapper_does_not_go_to_its_primitive() {
    for (prim, name) in [(boolean(), "Boolean"), (number(), "Number"), (string(), "String")] {
        let r = interface(name, vec![]);
        let res = strict().assign(&prim, &r, at(1, 2));
        let expected = AssignError::AssignFailed {
            span: at(1, 2),
            left: prim.to_static(),
            right: r.to_static(),
            cause: vec![AssignError::AssignedWrapperToPrimitive { span: at(1, 2) }],
        };
        assert_eq!(res, Err(expected));
        assert_eq!(
            strict().assign_inner(&prim, &r, at(1, 2)),
            Err(AssignError::AssignedWrapperToPrimitive { span: at(1, 2) })
        );
    }
}

#[test]
fn wrapper_rule_is_by_name_and_kind() {
    // `number` and the wrapper of `string` are no pair of the rule.
    let res = lenient().assign_inner(&number(), &interface("String", vec![]), DUMMY_SP);
    assert_eq!(res, Err(failed(number(), interface("String", vec![]), vec![])));
}

#[test]
fn constrained_parameter_takes_what_its_constraint_takes() {
    let l = param("T", Some(string()));
    assert_eq!(lenient().assign(&l, &str_lit("x"), DUMMY_SP), Ok(()));
    assert!(lenient().assign(&l, &num_lit("1"), DUMMY_SP).is_err());
}

#[test]
fn numeric_enum_goes_to_number() {
    let e = enum_type("E", vec![member("A", None), member("B", None)]);
    assert_eq!(lenient().assign(&number(), &e, DUMMY_SP), Ok(()));
    assert!(lenient().assign(&string(), &e, DUMMY_SP).is_err());
}

#[test]
fn string_enum_goes_to_string() {
    let init = |v: &str| Some(Lit::Str { span: DUMMY_SP, value: Symbol::new(v), has_escape: false });
    let e = enum_type("E", vec![member("A", init("a")), member("B", init("b"))]);
    assert_eq!(lenient().assign(&string(), &e, DUMMY_SP), Ok(()));
    assert!(lenient().assign(&number(), &e, DUMMY_SP).is_err());
}

#[test]
fn mixed_enum_is_not_decided() {
    let s = Some(Lit::Str { span: DUMMY_SP, value: Symbol::new("a"), has_escape: false });
    let n = Some(Lit::Number { span: DUMMY_SP, text: Symbol::new("1") });
    let e = enum_type("E", vec![member("A", s), member("B", n)]);
    let res = lenient().assign_inner(&number(), &e, at(4, 5));
    let expected =
        AssignError::Unimplemented { span: at(4, 5), left: number(), right: e.to_static() };
    assert_eq!(res, Err(expected));
}

#[test]
fn undefined_goes_anywhere_in_a_tuple() {
    let l = tuple(vec![number(), kw(KeywordKind::Any)]);
    let r = tuple(vec![undefined(), undefined()]);
    assert_eq!(lenient().assign(&l, &r, DUMMY_SP), Ok(()));
    assert_eq!(strict().assign(&l, &r, DUMMY_SP), Ok(()));
    let r2 = tuple(vec![kw(KeywordKind::Null), undefined()]);
    assert!(strict().assign(&l, &r2, DUMMY_SP).is_err());
}

#[test]
fn tuple_length() {
    let t2 = tuple(vec![number(), string()]);
    let t3 = tuple(vec![number(), string(), boolean()]);
    assert_eq!(lenient().assign(&t2, &t3, DUMMY_SP), Err(failed(t2.to_static(), t3.to_static(), vec![])));
    assert_eq!(lenient().assign(&t3, &t2, DUMMY_SP), Ok(()));
}

#[test]
fn tuple_reports_the_first_failing_position() {
    let l = tuple(vec![number(), string(), boolean()]);
    let r = tuple(vec![number(), boolean(), string()]);
    let expected = failed(string(), boolean(), vec![]);
    assert_eq!(strict().assign(&l, &r, DUMMY_SP), Err(expected));
}

#[test]
fn array_from_tuple() {
    let ok = tuple(vec![string(), string(), string()]);
    assert_eq!(strict().assign(&array(string()), &ok, DUMMY_SP), Ok(()));
    let bad = tuple(vec![string(), number()]);
    assert!(strict().assign(&array(string()), &bad, DUMMY_SP).is_err());
}

#[test]
fn literal_widening() {
    assert_eq!(strict().assign(&number(), &num_lit("42"), DUMMY_SP), Ok(()));
    assert_eq!(strict().assign(&string(), &str_lit("x"), DUMMY_SP), Ok(()));
    assert_eq!(strict().assign(&boolean(), &bool_lit(true), DUMMY_SP), Ok(()));
    assert!(strict().assign(&num_lit("42"), &number(), DUMMY_SP).is_err());
    assert!(strict().assign(&str_lit("x"), &string(), DUMMY_SP).is_err());
    assert!(strict().assign(&bool_lit(true), &boolean(), DUMMY_SP).is_err());
    assert!(strict().assign(&number(), &str_lit("42"), DUMMY_SP).is_err());
}

#[test]
fn literals_compare_by_value() {
    let escaped = Type::Lit(Lit::Str { span: at(7, 9), value: Symbol::new("x"), has_escape: true });
    assert_eq!(strict().assign(&str_lit("x"), &escaped, DUMMY_SP), Ok(()));
    assert!(!str_lit("x").eq_ignore_span(&escaped));
    assert!(strict().assign(&str_lit("x"), &str_lit("y"), DUMMY_SP).is_err());
    assert_eq!(strict().assign(&num_lit("1"), &num_lit("1"), DUMMY_SP), Ok(()));
    assert!(strict().assign(&num_lit("1"), &num_lit("2"), DUMMY_SP).is_err());
    assert!(strict().assign(&bool_lit(true), &bool_lit(false), DUMMY_SP).is_err());
    assert!(strict().assign(&num_lit("1"), &str_lit("1"), DUMMY_SP).is_err());
}

#[test]
fn enum_variant_identity() {
    let e = enum_type("E", vec![member("m", None)]);
    assert_eq!(strict().assign(&e, &variant("E", "m"), DUMMY_SP), Ok(()));
    assert!(strict().assign(&e, &variant("F", "m"), DUMMY_SP).is_err());
    assert_eq!(strict().assign(&variant("E", "m"), &variant("E", "m"), DUMMY_SP), Ok(()));
    assert!(strict().assign(&variant("E", "m"), &variant("E", "n"), DUMMY_SP).is_err());
    assert!(strict().assign(&variant("E", "m"), &number(), DUMMY_SP).is_err());
}

#[test]
fn top_accepts_everything_and_any_goes_everywhere() {
    let samples = vec![
        number(),
        str_lit("a"),
        tuple(vec![number()]),
        type_lit(vec![]),
        Type::This { span: DUMMY_SP },
        union(vec![number(), string()]),
    ];
    for t in samples.iter() {
        assert_eq!(strict().assign(&kw(KeywordKind::Any), t, DUMMY_SP), Ok(()));
        assert_eq!(strict().assign(&kw(KeywordKind::Unknown), t, DUMMY_SP), Ok(()));
        assert_eq!(strict().assign(t, &kw(KeywordKind::Any), DUMMY_SP), Ok(()));
    }
}

#[test]
fn unknown_goes_only_to_the_tops_and_undefined() {
    let unknown = kw(KeywordKind::Unknown);
    assert_eq!(strict().assign(&kw(KeywordKind::Any), &unknown, DUMMY_SP), Ok(()));
    assert_eq!(strict().assign(&undefined(), &unknown, DUMMY_SP), Ok(()));
    assert_eq!(strict().assign(&unknown, &unknown, DUMMY_SP), Ok(()));
    assert_eq!(
        strict().assign(&number(), &unknown, DUMMY_SP),
        Err(failed(number(), kw(KeywordKind::Unknown), vec![]))
    );
    assert!(strict().assign(&type_lit(vec![]), &unknown, DUMMY_SP).is_err());
}

#[test]
fn strict_null_flag() {
    for nullish in [undefined(), kw(KeywordKind::Null)] {
        for t in [number(), array(string()), Type::This { span: DUMMY_SP }, str_lit("a")] {
            assert_eq!(lenient().assign(&t, &nullish, DUMMY_SP), Ok(()));
            assert!(strict().assign(&t, &nullish, DUMMY_SP).is_err());
        }
        assert_eq!(strict().assign(&kw(KeywordKind::Any), &nullish, DUMMY_SP), Ok(()));
        assert_eq!(strict().assign(&kw(KeywordKind::Unknown), &nullish, DUMMY_SP), Ok(()));
        assert_eq!(strict().assign(&nullish, &nullish, DUMMY_SP), Ok(()));
    }
    assert!(strict().assign(&undefined(), &kw(KeywordKind::Null), DUMMY_SP).is_err());
}

#[test]
fn union_on_the_right_demands_every_alternative() {
    let r = union(vec![number(), string()]);
    let l = union(vec![number(), string(), boolean()]);
    assert_eq!(strict().assign(&l, &r, DUMMY_SP), Ok(()));
    let res = strict().assign_inner(&number(), &r, at(2, 4));
    let inner = AssignError::AssignFailed {
        span: at(2, 4),
        left: number(),
        right: string(),
        cause: vec![],
    };
    assert_eq!(res, Err(AssignError::UnionError { span: at(2, 4), errors: vec![inner] }));
}

#[test]
fn union_on_the_left_offers_every_alternative() {
    let l = union(vec![number(), string()]);
    assert_eq!(strict().assign(&l, &string(), DUMMY_SP), Ok(()));
    let res = strict().assign_inner(&l, &boolean(), DUMMY_SP);
    let expected = AssignError::UnionError {
        span: DUMMY_SP,
        errors: vec![failed(number(), boolean(), vec![]), failed(string(), boolean(), vec![])],
    };
    assert_eq!(res, Err(expected));
}

#[test]
fn intersection_demands_every_part() {
    let a = type_lit(vec![prop("a", number())]);
    let b = type_lit(vec![prop("b", string())]);
    let l = intersection(vec![a.to_static(), b.to_static()]);
    let both = type_lit(vec![prop("a", number()), prop("b", string())]);
    assert_eq!(strict().assign(&l, &both, DUMMY_SP), Ok(()));
    let only_a = type_lit(vec![prop("a", number())]);
    let res = strict().assign_inner(&l, &only_a, DUMMY_SP);
    let missing = AssignError::MissingFields { span: DUMMY_SP, fields: vec![prop("b", string())] };
    let cause = AssignError::Errors { span: DUMMY_SP, errors: vec![missing] };
    assert_eq!(res, Err(AssignError::IntersectionError { span: DUMMY_SP, error: Box::new(cause) }));
}

#[test]
fn this_is_never_a_target() {
    let this = Type::This { span: at(10, 14) };
    assert_eq!(
        strict().assign_inner(&this, &number(), at(1, 2)),
        Err(AssignError::CannotAssignToThis { span: at(1, 2) })
    );
    assert!(strict().assign(&this, &this, DUMMY_SP).is_err());
}

#[test]
fn object_keyword() {
    let object = kw(KeywordKind::Object);
    assert_eq!(strict().assign(&object, &number(), DUMMY_SP), Ok(()));
    assert_eq!(strict().assign(&object, &string(), DUMMY_SP), Ok(()));
    assert_eq!(strict().assign(&object, &type_lit(vec![]), DUMMY_SP), Ok(()));
    assert_eq!(strict().assign(&object, &function(vec![], number()), DUMMY_SP), Ok(()));
    assert_eq!(strict().assign(&object, &Type::Class(class("C", vec![])), DUMMY_SP), Ok(()));
    assert_eq!(strict().assign(&object, &kw(KeywordKind::Object), DUMMY_SP), Ok(()));
    assert_eq!(
        strict().assign(&object, &enum_type("E", vec![member("A", None)]), DUMMY_SP),
        Ok(())
    );
    assert!(strict().assign(&object, &boolean(), DUMMY_SP).is_err());
    assert!(strict().assign(&object, &array(number()), DUMMY_SP).is_err());
}

#[test]
fn function_return_is_covariant_and_parameters_are_not_checked() {
    let l = function(vec![], kw(KeywordKind::Any));
    let r = function(vec![fn_param("x", number())], string());
    assert_eq!(strict().assign(&l, &r, DUMMY_SP), Ok(()));
    let l2 = function(vec![], number());
    assert_eq!(strict().assign(&l2, &r, DUMMY_SP), Err(failed(number(), string(), vec![])));
}

#[test]
fn parameter_identity() {
    let t = param("T", None);
    assert_eq!(strict().assign(&t, &param("T", None), DUMMY_SP), Ok(()));
    assert_eq!(strict().assign(&type_lit(vec![]), &t, DUMMY_SP), Ok(()));
    assert!(strict().assign(&number(), &t, DUMMY_SP).is_err());
    assert_eq!(strict().assign(&number(), &param("U", Some(number())), DUMMY_SP), Ok(()));
}

#[test]
fn predicate_takes_booleans() {
    let p = Type::Predicate {
        span: DUMMY_SP,
        param: Symbol::new("x"),
        tested: Box::new(string()),
    };
    assert_eq!(strict().assign(&p, &boolean(), DUMMY_SP), Ok(()));
    assert_eq!(strict().assign(&p, &bool_lit(false), DUMMY_SP), Ok(()));
    assert!(strict().assign(&p, &number(), DUMMY_SP).is_err());
}

#[test]
fn class_is_nominal() {
    let c = class("C", vec![]);
    let same = Class { span: at(5, 6), name: Symbol::new("C"), body: vec![] };
    let other = class("D", vec![]);
    let l = Type::Class(c);
    assert_eq!(strict().assign(&l, &Type::Class(same), DUMMY_SP), Ok(()));
    assert!(strict().assign(&l, &Type::Class(other), DUMMY_SP).is_err());
    let instance =
        Type::ClassInstance { span: DUMMY_SP, cls: class("C", vec![]), type_args: vec![] };
    assert_eq!(strict().assign(&l, &instance, DUMMY_SP), Ok(()));
    assert!(strict().assign(&l, &number(), DUMMY_SP).is_err());
}

#[test]
fn unresolved_reference_is_signalled() {
    let r = Type::Ref { span: DUMMY_SP, name: Symbol::new("Foo"), args: vec![] };
    let res = strict().assign_inner(&kw(KeywordKind::Any), &r, at(1, 3));
    let expected = AssignError::Unimplemented {
        span: at(1, 3),
        left: kw(KeywordKind::Any),
        right: r.to_static(),
    };
    assert_eq!(res, Err(expected));
    assert!(strict().assign(&r, &r, DUMMY_SP).is_err());
}

#[test]
fn unhandled_pair_is_signalled_and_wrapped() {
    let l = tuple(vec![number()]);
    let res = strict().assign(&l, &number(), at(1, 3));
    let inner = AssignError::Unimplemented { span: at(1, 3), left: l.to_static(), right: number() };
    let expected = AssignError::AssignFailed {
        span: at(1, 3),
        left: l.to_static(),
        right: number(),
        cause: vec![inner],
    };
    assert_eq!(res, Err(expected));
}

#[test]
fn single_alternative_union_stands_for_its_alternative() {
    let l = union(vec![number()]);
    assert_eq!(strict().assign(&l, &num_lit("1"), DUMMY_SP), Ok(()));
    assert_eq!(l.normalize(), &number());
    assert_eq!(strict().assign(&number(), &union(vec![union(vec![number()])]), DUMMY_SP), Ok(()));
}

#[test]
fn generalize_lit_widens_literals_only() {
    let lit = Type::Lit(Lit::Number { span: at(1, 2), text: Symbol::new("42") });
    assert_eq!(lit.generalize_lit(), Type::keyword(at(1, 2), KeywordKind::Number));
    assert_eq!(str_lit("x").generalize_lit(), string());
    assert_eq!(bool_lit(true).generalize_lit(), boolean());
    assert_eq!(array(num_lit("1")).generalize_lit(), array(num_lit("1")));
}

#[test]
fn same_inputs_same_outcome_and_inputs_untouched() {
    let l = type_lit(vec![prop("x", number())]);
    let r = type_lit(vec![prop("y", number())]);
    let (l0, r0) = (l.to_static(), r.to_static());
    let first = strict().assign(&l, &r, at(1, 2));
    let second = strict().assign(&l, &r, at(1, 2));
    assert_eq!(first, second);
    assert_eq!(l, l0);
    assert_eq!(r, r0);
}

#[test]
fn reflexive_types_go_to_themselves() {
    let object = type_lit(vec![prop("a", number()), prop("b", array(string()))]);
    let samples = vec![
        number(),
        kw(KeywordKind::Never),
        kw(KeywordKind::Object),
        kw(KeywordKind::Unknown),
        str_lit("a"),
        array(tuple(vec![number(), string()])),
        union(vec![number(), str_lit("a"), object.to_static()]),
        object,
        interface("I", vec![prop("x", boolean())]),
        function(vec![fn_param("x", number())], string()),
        param("T", None),
        param("T", Some(number())),
        variant("E", "m"),
        Type::Class(class("C", vec![])),
        Type::ClassInstance { span: DUMMY_SP, cls: class("C", vec![]), type_args: vec![] },
        Type::Constructor { span: DUMMY_SP, sig: signature(vec![], number()) },
    ];
    for t in samples.iter() {
        assert_eq!(strict().assign(t, t, DUMMY_SP), Ok(()), "{:?}", t);
        assert_eq!(lenient().assign(t, t, DUMMY_SP), Ok(()), "{:?}", t);
    }
}

#[test]
fn types_outside_the_reflexive_ones() {
    let e = enum_type("E", vec![member("A", None)]);
    assert!(strict().assign(&e, &e, DUMMY_SP).is_err());
    let i = intersection(vec![number(), string()]);
    assert!(strict().assign(&i, &i, DUMMY_SP).is_err());
    let p = Type::Predicate { span: DUMMY_SP, param: Symbol::new("x"), tested: Box::new(number()) };
    assert!(strict().assign(&p, &p, DUMMY_SP).is_err());
    let numeric_key = TypeElement::Property {
        span: DUMMY_SP,
        key: Key::Num { span: DUMMY_SP, text: Symbol::new("0") },
        optional: false,
        ty: Some(Box::new(number())),
    };
    let keyed = type_lit(vec![numeric_key]);
    assert!(strict().assign(&keyed, &keyed, DUMMY_SP).is_err());
}

#[test]
fn union_laws_on_values() {
    // A union on the right is a demand.
    let r = union(vec![num_lit("1"), str_lit("a")]);
    assert_eq!(strict().assign(&union(vec![number(), string()]), &r, DUMMY_SP), Ok(()));
    assert!(strict().assign(&number(), &r, DUMMY_SP).is_err());
    // A union on the left is an offer, but a union on the right is taken
    // apart first.
    let l = union(vec![number(), string()]);
    assert_eq!(strict().assign(&l, &l, DUMMY_SP), Ok(()));
    assert!(strict().assign(&number(), &l, DUMMY_SP).is_err());
    assert!(strict().assign(&string(), &l, DUMMY_SP).is_err());
    // `unknown` is decided before the alternatives are asked.
    let with_any = union(vec![kw(KeywordKind::Any), string()]);
    assert!(strict().assign(&with_any, &kw(KeywordKind::Unknown), DUMMY_SP).is_err());
    // An intersection of shared demands.
    let i = intersection(vec![type_lit(vec![]), kw(KeywordKind::Any)]);
    assert_eq!(strict().assign(&i, &r, DUMMY_SP), Ok(()));
    assert!(strict().assign(&i, &kw(KeywordKind::Unknown), DUMMY_SP).is_err());
}

#[test]
fn strict_null_goes_to_what_cannot_inspect_it() {
    assert_eq!(strict().assign(&type_lit(vec![]), &kw(KeywordKind::Null), DUMMY_SP), Ok(()));
    let nullable = union(vec![string(), undefined()]);
    assert_eq!(strict().assign(&nullable, &undefined(), DUMMY_SP), Ok(()));
    assert!(strict().assign(&nullable, &kw(KeywordKind::Null), DUMMY_SP).is_err());
}

#[test]
fn empty_union_on_the_right_demands_nothing() {
    assert_eq!(strict().assign(&number(), &union(vec![]), DUMMY_SP), Ok(()));
    assert!(strict().assign(&union(vec![]), &number(), DUMMY_SP).is_err());
}
