use assignability::normalize_mut::NormalizeMut;
use assignability::symbol::Symbol;
use assignability::ty::{KeywordKind, Lit, Type};
use assignability::util::{Comparator, ResultExt};
use swc_common::DUMMY_SP;

#[test]
fn store_keeps_values_and_sets_errors_aside() {
    let mut errors: Vec<&str> = vec!["first"];
    let ok: Result<u8, &str> = Ok(3);
    assert_eq!(ok.store(&mut errors), Some(3));
    assert_eq!(errors, vec!["first"]);
    let failed: Result<u8, &str> = Err("second");
    assert_eq!(failed.store(&mut errors), None);
    assert_eq!(errors, vec!["first", "second"]);
}

#[test]
fn comparator_looks_from_both_sides() {
    let c = Comparator { left: 1u8, right: 2u8 };
    assert_eq!(c.take(|a, b| if a > b { Some(a - b) } else { None }), Some(1));
    assert_eq!(c.take(|a, b| if a < b { Some(b - a) } else { None }), Some(1));
    assert_eq!(c.take(|a, b| if a == b { Some(a) } else { None }), None);
    assert!(c.both(|x| x > 0));
    assert!(!c.both(|x| x > 1));
    assert!(c.any(|x| x > 1));
    assert!(!c.any(|x| x > 2));
}

#[test]
fn normalize_mut_unwraps_in_place() {
    let number = Type::keyword(DUMMY_SP, KeywordKind::Number);
    let inner = Type::Union { span: DUMMY_SP, types: vec![number.to_static()] };
    let mut t = Type::Union { span: DUMMY_SP, types: vec![inner] };
    *t.normalize_mut() = Type::Lit(Lit::Bool { span: DUMMY_SP, value: true });
    assert_eq!(t, Type::Lit(Lit::Bool { span: DUMMY_SP, value: true }));

    let mut u = Type::Union { span: DUMMY_SP, types: vec![number.to_static()] };
    assert_eq!(u.normalize_mut(), &number);
    assert_eq!(u, number);

    let two = Type::Union { span: DUMMY_SP, types: vec![number.to_static(), number.to_static()] };
    let mut boxed = Box::new(two.to_static());
    assert_eq!(boxed.normalize_mut(), &two);
}

#[test]
fn symbols_round_trip_through_atoms() {
    let s = Symbol::from_atom(swc_atoms::Atom::from("name"));
    assert!(s.spells("name"));
    assert_eq!(s.as_atom().as_str(), "name");
    assert_eq!(s, Symbol::new("name"));
}
