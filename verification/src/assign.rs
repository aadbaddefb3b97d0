//! The assignability engine.

use vstd::prelude::*;
use swc_common::Span;
use crate::canon::{lemma_normalized_decreases, lemma_normalized_is_canonical};
use crate::equal::{class_eq, signatures_eq};
use crate::errors::{error_views, no_errors, one_error, push_error, AssignError, ErrorView};
use crate::lookup::{
    enum_primitive_of, find_method_index, find_property_index, has_class_property_exec,
    has_constructor_exec, has_equal_element_exec, is_object_like_exec, is_wrapper_of,
    keyword_accepts_exec, lit_value_eq,
};
use crate::rules::{
    array_from_tuple_spec, array_target_spec, function_target_spec, plain_target_spec,
    tuple_target_spec, assign_inner_spec, assign_spec, declared_or_any, failed,
    fallback_spec, has_class_property, has_constructor, intersection_spec, lemma_normalized_weight,
    lemma_find_method, lemma_find_property, lemma_missing_members_stops, lemma_source_weights,
    member_outcome, members_spec, missing_members, object_members_spec,
    primitive_to_wrapper, source_spec, source_union_errors, source_weights, target_spec,
    target_union_accepts, target_union_errors, tuple_spec, undecided, wrapper_to_primitive,
    MemberOutcome,
};
use crate::ty::{
    element_views, type_views, Class, KeywordKind, Type, TypeElement, TypeElementView, TypeView,
};

verus! {

/// The switches of the analyzer.
#[derive(Clone, Copy, Debug, PartialEq, Eq)]
pub struct Config {
    /// Where this is off, `null` and `undefined` are assignable to every
    /// type.
    pub strict_null_checks: bool,
}

/// The analyzer: it decides assignability under its switches.
#[derive(Clone, Copy, Debug)]
pub struct Analyzer {
    pub rule: Config,
}

/// The outcome of a query, by the view of its failure.
pub open spec fn result_view(res: Result<(), AssignError>) -> Result<(), ErrorView> {
    match res {
        Ok(()) => Ok(()),
        Err(e) => Err(e@),
    }
}

/// The outcome of a member, by the view of its failure: `Ok(true)` where
/// it was matched, `Ok(false)` where it is missing.
pub open spec fn outcome_view(res: Result<bool, AssignError>) -> MemberOutcome {
    match res {
        Ok(true) => MemberOutcome::Matched,
        Ok(false) => MemberOutcome::Missing,
        Err(e) => MemberOutcome::Failed(e@),
    }
}

impl Analyzer {
    /// An analyzer with the switches `rule`.
    pub fn new(rule: Config) -> (a: Analyzer)
        ensures
            a.rule == rule,
    {
        Analyzer { rule }
    }

    /// The generic failure of a rule.
    fn fail(&self, to: &Type, rhs: &Type, span: Span) -> (e: AssignError)
        ensures
            e@ == failed(to@, rhs@, span),
    {
        AssignError::AssignFailed {
            span,
            left: to.to_static(),
            right: rhs.to_static(),
            cause: no_errors(),
        }
    }

    /// A failure wrapped into the failure of the pair it arose under.
    fn fail_because(&self, to: &Type, rhs: &Type, span: Span, cause: AssignError) -> (e:
        AssignError)
        ensures
            e@ == (ErrorView::AssignFailed {
                span,
                left: to@,
                right: rhs@,
                cause: seq![cause@],
            }),
    {
        AssignError::AssignFailed {
            span,
            left: to.to_static(),
            right: rhs.to_static(),
            cause: one_error(cause),
        }
    }

    /// The signal that the pair is not decided.
    fn undecided(&self, to: &Type, rhs: &Type, span: Span) -> (e: AssignError)
        ensures
            e@ == undecided(to@, rhs@, span),
    {
        AssignError::Unimplemented { span, left: to.to_static(), right: rhs.to_static() }
    }

    /// Decides whether a value of type `right` may be stored in a binding of
    /// type `left`. A failure is rooted in an `AssignFailed`. The two types
    /// are only read, and the outcome depends on nothing but them, the
    /// location and the switches.
    pub fn assign(&self, left: &Type, right: &Type, span: Span) -> (res: Result<(), AssignError>)
        ensures
            result_view(res) == assign_spec(left@, right@, span, self.rule.strict_null_checks),
    {
        match self.assign_inner(left, right, span) {
            Ok(()) => Ok(()),
            Err(err) => match err {
                AssignError::AssignFailed { .. } => Err(err),
                _ => Err(self.fail_because(left, right, span, err)),
            },
        }
    }

    /// The rules, in their order.
    pub fn assign_inner(&self, to: &Type, rhs: &Type, span: Span) -> (res: Result<
        (),
        AssignError,
    >)
        ensures
            result_view(res) == assign_inner_spec(to@, rhs@, span, self.rule.strict_null_checks),
        decreases to@, rhs@.source_weight(), 3nat,
    {
        let ln = to.normalize();
        let rn = rhs.normalize();
        proof {
            lemma_normalized_weight(rhs@);
            lemma_normalized_is_canonical(rhs@);
        }
        match ln {
            Type::Ref { .. } => {
                return Err(self.undecided(to, rhs, span));
            },
            _ => {},
        }
        match rn {
            Type::Ref { .. } => {
                return Err(self.undecided(to, rhs, span));
            },
            _ => {},
        }
        // The source as the wrapper rule sees it: a literal widened to its
        // primitive.
        let widened: Option<KeywordKind> = match rhs {
            Type::Lit(l) => Some(l.primitive()),
            _ => match rn {
                Type::Keyword { kind, .. } => Some(*kind),
                _ => None,
            },
        };
        let ghost rw = rhs@.generalized().normalized();
        assert(widened == match rw {
            TypeView::Keyword { kind, .. } => Some(kind),
            _ => None,
        });
        assert(rw is Interface ==> rw == rn@);
        match ln {
            Type::Keyword { kind, .. } => {
                if widened.is_none() {
                    match rn {
                        Type::Interface { name, .. } => {
                            if is_wrapper_of(name, *kind) {
                                return Err(AssignError::AssignedWrapperToPrimitive { span });
                            }
                        },
                        _ => {},
                    }
                }
                match kind {
                    KeywordKind::Any | KeywordKind::Unknown => {
                        return Ok(());
                    },
                    _ => {},
                }
            },
            Type::Interface { name, .. } => {
                match widened {
                    Some(kind) => {
                        if is_wrapper_of(name, kind) {
                            return Ok(());
                        }
                    },
                    None => {},
                }
            },
            _ => {},
        }
        assert(!wrapper_to_primitive(ln@, rw));
        assert(!primitive_to_wrapper(ln@, rw));
        assert(!ln@.is_top());
        match rn {
            Type::Keyword { kind, .. } => {
                match kind {
                    KeywordKind::Undefined | KeywordKind::Null => {
                        if !self.rule.strict_null_checks {
                            return Ok(());
                        }
                    },
                    _ => {},
                }
            },
            _ => {},
        }
        self.assign_source(to, rhs, span)
    }

    /// The rules keyed on the source.
    fn assign_source(&self, to: &Type, rhs: &Type, span: Span) -> (res: Result<(), AssignError>)
        ensures
            result_view(res) == source_spec(to@, rhs@, span, self.rule.strict_null_checks),
        decreases to@, rhs@.source_weight(), 2nat,
    {
        let ln = to.normalize();
        let rn = rhs.normalize();
        proof {
            lemma_normalized_weight(rhs@);
        }
        match rn {
            Type::Keyword { kind, .. } => {
                match kind {
                    KeywordKind::Any => Ok(()),
                    KeywordKind::Unknown => {
                        if to.is_keyword(KeywordKind::Any) || to.is_keyword(
                            KeywordKind::Undefined,
                        ) {
                            Ok(())
                        } else {
                            Err(self.fail(to, rhs, span))
                        }
                    },
                    _ => self.assign_target(to, rhs, span),
                }
            },
            Type::Union { types, .. } => {
                assert(rn@ matches TypeView::Union { types: ts, .. } && ts == type_views(types@));
                assert(type_views(types@).len() == types.len());
                let errors = self.source_union_errors(to, rhs, types, span);
                assert(error_views(errors@).len() == errors.len());
                if errors.len() == 0 {
                    Ok(())
                } else {
                    Err(AssignError::UnionError { span, errors })
                }
            },
            Type::Param(p) => {
                assert(rn@ == TypeView::Param(p@));
                let same_param = match ln {
                    Type::Param(lp) => {
                        assert(ln@ == TypeView::Param(lp@));
                        p.name.same(&lp.name)
                    },
                    _ => false,
                };
                if same_param {
                    return Ok(());
                }
                match &p.constraint {
                    Some(c) => {
                        assert(p@.constraint == Some(Box::new((**c)@)));
                        self.assign_inner(to, c, span)
                    },
                    None => {
                        assert(p@.constraint is None);
                        let empty_target = match ln {
                            Type::TypeLit { members, .. } => {
                                assert(element_views(members@).len() == members.len());
                                members.len() == 0
                            },
                            _ => false,
                        };
                        if empty_target {
                            Ok(())
                        } else {
                            Err(self.fail(to, rhs, span))
                        }
                    },
                }
            },
            Type::Enum(e) => {
                assert(rn@ == TypeView::Enum(e@));
                match enum_primitive_of(e) {
                    Some(kind) => {
                        let widened_enum = Type::keyword(span, kind);
                        self.assign_inner(to, &widened_enum, span)
                    },
                    None => Err(self.undecided(to, rhs, span)),
                }
            },
            _ => self.assign_target(to, rhs, span),
        }
    }

    /// The failures of assigning the alternatives of a source union.
    fn source_union_errors(&self, to: &Type, rhs: &Type, alts: &Vec<Type>, span: Span) -> (errors:
        Vec<AssignError>)
        ensures
            error_views(errors@) == source_union_errors(
                to@,
                rhs@,
                type_views(alts@),
                alts.len() as nat,
                span,
                self.rule.strict_null_checks,
            ),
        decreases to@, 1 + source_weights(type_views(alts@)), alts.len(),
    {
        let ghost vs = type_views(alts@);
        let mut errors = no_errors();
        let mut i: usize = 0;
        while i < alts.len()
            invariant
                i <= alts.len(),
                vs == type_views(alts@),
                error_views(errors@) == source_union_errors(
                    to@,
                    rhs@,
                    vs,
                    i as nat,
                    span,
                    self.rule.strict_null_checks,
                ),
            decreases alts.len() - i,
        {
            assert(vs[i as int] == alts@[i as int]@);
            proof {
                lemma_source_weights(vs, i as int);
            }
            match self.assign_inner(to, &alts[i], span) {
                Ok(()) => {},
                Err(e) => {
                    push_error(&mut errors, e);
                },
            }
            i += 1;
        }
        errors
    }

    /// The rules keyed on the target.
    fn assign_target(&self, to: &Type, rhs: &Type, span: Span) -> (res: Result<(), AssignError>)
        ensures
            result_view(res) == target_spec(to@, rhs@, span, self.rule.strict_null_checks),
        decreases to@, rhs@.source_weight(), 1nat,
    {
        let ln = to.normalize();
        proof {
            lemma_normalized_decreases(to@);
        }
        match ln {
            Type::Param(p) => {
                assert(ln@ == TypeView::Param(p@));
                match &p.constraint {
                    Some(c) => {
                        assert(p@.constraint == Some(Box::new((**c)@)));
                        self.assign_inner(c, rhs, span)
                    },
                    None => {
                        assert(p@.constraint is None);
                        self.fallback(to, rhs, span)
                    },
                }
            },
            Type::Array { .. } => self.assign_to_array(to, rhs, span),
            Type::Union { types, .. } => {
                assert(ln@ matches TypeView::Union { types: ts, .. } && ts == type_views(types@));
                assert(type_views(types@).len() == types.len());
                self.target_union(types, rhs, span)
            },
            Type::Intersection { types, .. } => {
                assert(ln@ matches TypeView::Intersection { types: ts, .. } && ts == type_views(
                    types@,
                ));
                match self.intersection(types, rhs, span) {
                    Ok(()) => Ok(()),
                    Err(e) => Err(AssignError::IntersectionError { span, error: Box::new(e) }),
                }
            },
            Type::Interface { body, .. } => {
                assert(ln@ matches TypeView::Interface { body: ms, .. } && ms == element_views(
                    body@,
                ));
                self.assign_members(to, rhs, body, span)
            },
            Type::TypeLit { members, .. } => {
                assert(ln@ matches TypeView::TypeLit { members: ms, .. } && ms == element_views(
                    members@,
                ));
                self.assign_members(to, rhs, members, span)
            },
            Type::Function { .. } => self.assign_to_function(to, rhs, span),
            Type::Tuple { .. } => self.assign_to_tuple(to, rhs, span),
            _ => self.assign_to_plain(to, rhs, span),
        }
    }

    /// An array as target.
    fn assign_to_array(&self, to: &Type, rhs: &Type, span: Span) -> (res: Result<(), AssignError>)
        ensures
            result_view(res) == array_target_spec(to@, rhs@, span, self.rule.strict_null_checks),
        decreases to@, rhs@.source_weight(), 0nat,
    {
        proof {
            lemma_normalized_decreases(to@);
        }
        match to.normalize() {
            Type::Array { elem, .. } => match rhs.normalize() {
                Type::Array { elem: r_elem, .. } => match self.assign_inner(elem, r_elem, span) {
                    Ok(()) => Ok(()),
                    Err(e) => Err(self.fail_because(to, rhs, span, e)),
                },
                Type::Tuple { elems, .. } => match self.array_from_tuple(elem, elems, span) {
                    Ok(()) => Ok(()),
                    Err(e) => Err(self.fail_because(to, rhs, span, e)),
                },
                _ => Err(self.fail(to, rhs, span)),
            },
            _ => Err(self.fail(to, rhs, span)),
        }
    }

    /// A function as target.
    fn assign_to_function(&self, to: &Type, rhs: &Type, span: Span) -> (res: Result<
        (),
        AssignError,
    >)
        ensures
            result_view(res) == function_target_spec(
                to@,
                rhs@,
                span,
                self.rule.strict_null_checks,
            ),
        decreases to@, rhs@.source_weight(), 0nat,
    {
        proof {
            lemma_normalized_decreases(to@);
        }
        match to.normalize() {
            Type::Function { sig, .. } => match rhs.normalize() {
                Type::Function { sig: r_sig, .. } => {
                    assert(to@.normalized() matches TypeView::Function { sig: s, .. } && s == sig@);
                    assert(rhs@.normalized() matches TypeView::Function { sig: s, .. } && s
                        == r_sig@);
                    assert(sig@.type_params is None == sig.type_params is None);
                    assert(r_sig@.type_params is None == r_sig.type_params is None);
                    if sig.type_params.is_none() && r_sig.type_params.is_none() {
                        self.assign_inner(&sig.ret, &r_sig.ret, span)
                    } else {
                        self.fallback(to, rhs, span)
                    }
                },
                _ => self.fallback(to, rhs, span),
            },
            _ => self.fallback(to, rhs, span),
        }
    }

    /// A tuple as target.
    fn assign_to_tuple(&self, to: &Type, rhs: &Type, span: Span) -> (res: Result<(), AssignError>)
        ensures
            result_view(res) == tuple_target_spec(to@, rhs@, span, self.rule.strict_null_checks),
        decreases to@, rhs@.source_weight(), 0nat,
    {
        proof {
            lemma_normalized_decreases(to@);
        }
        match to.normalize() {
            Type::Tuple { elems, .. } => match rhs.normalize() {
                Type::Tuple { elems: r_elems, .. } => {
                    assert(type_views(elems@).len() == elems.len());
                    assert(type_views(r_elems@).len() == r_elems.len());
                    if elems.len() < r_elems.len() {
                        Err(self.fail(to, rhs, span))
                    } else {
                        self.tuple(elems, r_elems, span)
                    }
                },
                _ => self.fallback(to, rhs, span),
            },
            _ => self.fallback(to, rhs, span),
        }
    }

    /// The targets whose rule looks at the two canonical shapes and no
    /// further.
    fn assign_to_plain(&self, to: &Type, rhs: &Type, span: Span) -> (res: Result<(), AssignError>)
        ensures
            result_view(res) == plain_target_spec(to@, rhs@, span),
    {
        let rn = rhs.normalize();
        match to.normalize() {
            Type::Keyword { kind, .. } => {
                if *kind == KeywordKind::Object && is_object_like_exec(rn) {
                    Ok(())
                } else if keyword_accepts_exec(*kind, rn) {
                    Ok(())
                } else {
                    Err(self.fail(to, rhs, span))
                }
            },
            Type::Enum(e) => {
                assert(to@.normalized() == TypeView::Enum(e@));
                let same = match rn {
                    Type::EnumVariant { enum_name, .. } => enum_name.same(&e.id),
                    _ => false,
                };
                if same {
                    Ok(())
                } else {
                    Err(self.fail(to, rhs, span))
                }
            },
            Type::EnumVariant { enum_name, name, .. } => {
                let same = match rn {
                    Type::EnumVariant { enum_name: r_enum, name: r_name, .. } => r_enum.same(
                        enum_name,
                    ) && r_name.same(name),
                    _ => false,
                };
                if same {
                    Ok(())
                } else {
                    Err(self.fail(to, rhs, span))
                }
            },
            Type::This { .. } => Err(AssignError::CannotAssignToThis { span }),
            Type::Lit(ll) => {
                let same = match rn {
                    Type::Lit(rl) => lit_value_eq(ll, rl),
                    _ => false,
                };
                if same {
                    Ok(())
                } else {
                    Err(self.fail(to, rhs, span))
                }
            },
            Type::Predicate { .. } => {
                if keyword_accepts_exec(KeywordKind::Boolean, rn) {
                    Ok(())
                } else {
                    Err(self.fail(to, rhs, span))
                }
            },
            Type::Class(lc) => {
                let same = match rn {
                    Type::Class(rc) => class_eq(lc, rc, false),
                    Type::ClassInstance { cls, .. } => class_eq(lc, cls, false),
                    _ => false,
                };
                if same {
                    Ok(())
                } else {
                    Err(self.fail(to, rhs, span))
                }
            },
            _ => self.fallback(to, rhs, span),
        }
    }

    /// Where no rule applies.
    fn fallback(&self, to: &Type, rhs: &Type, span: Span) -> (res: Result<(), AssignError>)
        ensures
            result_view(res) == fallback_spec(to@, rhs@, span),
    {
        if to.eq_ignore_name_and_span(rhs) {
            Ok(())
        } else {
            Err(self.undecided(to, rhs, span))
        }
    }

    /// A tuple assigned to an array: every element goes to the element type.
    fn array_from_tuple(&self, elem: &Type, r_elems: &Vec<Type>, span: Span) -> (res: Result<
        (),
        AssignError,
    >)
        ensures
            result_view(res) == array_from_tuple_spec(
                elem@,
                type_views(r_elems@),
                0,
                span,
                self.rule.strict_null_checks,
            ),
        decreases elem@, 1 + source_weights(type_views(r_elems@)), r_elems.len(),
    {
        let ghost vs = type_views(r_elems@);
        let ghost strict = self.rule.strict_null_checks;
        let mut i: usize = 0;
        while i < r_elems.len()
            invariant
                i <= r_elems.len(),
                vs == type_views(r_elems@),
                strict == self.rule.strict_null_checks,
                array_from_tuple_spec(elem@, vs, 0, span, strict) == array_from_tuple_spec(
                    elem@,
                    vs,
                    i as int,
                    span,
                    strict,
                ),
            decreases r_elems.len() - i,
        {
            assert(vs[i as int] == r_elems@[i as int]@);
            proof {
                lemma_source_weights(vs, i as int);
            }
            match self.assign_inner(elem, &r_elems[i], span) {
                Ok(()) => {},
                Err(e) => {
                    return Err(e);
                },
            }
            i += 1;
        }
        assert(vs.len() == r_elems.len());
        Ok(())
    }

    /// A union as target: some alternative must accept the source.
    fn target_union(&self, alts: &Vec<Type>, rhs: &Type, span: Span) -> (res: Result<
        (),
        AssignError,
    >)
        ensures
            result_view(res) == (if target_union_accepts(
                type_views(alts@),
                rhs@,
                alts.len() as nat,
                span,
                self.rule.strict_null_checks,
            ) {
                Ok::<(), ErrorView>(())
            } else {
                Err(
                    ErrorView::UnionError {
                        span,
                        errors: target_union_errors(
                            type_views(alts@),
                            rhs@,
                            alts.len() as nat,
                            span,
                            self.rule.strict_null_checks,
                        ),
                    },
                )
            }),
        decreases type_views(alts@), 0nat, alts.len(),
    {
        let ghost vs = type_views(alts@);
        let ghost strict = self.rule.strict_null_checks;
        let mut accepted = false;
        let mut errors = no_errors();
        let mut i: usize = 0;
        while i < alts.len()
            invariant
                i <= alts.len(),
                vs == type_views(alts@),
                strict == self.rule.strict_null_checks,
                accepted == target_union_accepts(vs, rhs@, i as nat, span, strict),
                error_views(errors@) == target_union_errors(vs, rhs@, i as nat, span, strict),
            decreases alts.len() - i,
        {
            assert(vs[i as int] == alts@[i as int]@);
            match self.assign_inner(&alts[i], rhs, span) {
                Ok(()) => {
                    accepted = true;
                },
                Err(e) => {
                    push_error(&mut errors, e);
                },
            }
            i += 1;
        }
        assert(vs.len() == alts.len());
        if accepted {
            Ok(())
        } else {
            Err(AssignError::UnionError { span, errors })
        }
    }

    /// An intersection as target: every part must accept the source.
    fn intersection(&self, parts: &Vec<Type>, rhs: &Type, span: Span) -> (res: Result<
        (),
        AssignError,
    >)
        ensures
            result_view(res) == intersection_spec(
                type_views(parts@),
                rhs@,
                0,
                span,
                self.rule.strict_null_checks,
            ),
        decreases type_views(parts@), 0nat, parts.len(),
    {
        let ghost vs = type_views(parts@);
        let ghost strict = self.rule.strict_null_checks;
        let mut i: usize = 0;
        while i < parts.len()
            invariant
                i <= parts.len(),
                vs == type_views(parts@),
                strict == self.rule.strict_null_checks,
                intersection_spec(vs, rhs@, 0, span, strict) == intersection_spec(
                    vs,
                    rhs@,
                    i as int,
                    span,
                    strict,
                ),
            decreases parts.len() - i,
        {
            assert(vs[i as int] == parts@[i as int]@);
            match self.assign_inner(&parts[i], rhs, span) {
                Ok(()) => {},
                Err(e) => {
                    return Err(e);
                },
            }
            i += 1;
        }
        assert(vs.len() == parts.len());
        Ok(())
    }

    /// Tuple to tuple, position by position.
    fn tuple(&self, elems: &Vec<Type>, r_elems: &Vec<Type>, span: Span) -> (res: Result<
        (),
        AssignError,
    >)
        requires
            r_elems.len() <= elems.len(),
        ensures
            result_view(res) == tuple_spec(
                type_views(elems@),
                type_views(r_elems@),
                0,
                span,
                self.rule.strict_null_checks,
            ),
        decreases type_views(elems@), 0nat, r_elems.len(),
    {
        let ghost vs = type_views(elems@);
        let ghost rvs = type_views(r_elems@);
        let ghost strict = self.rule.strict_null_checks;
        let mut i: usize = 0;
        while i < r_elems.len()
            invariant
                i <= r_elems.len(),
                r_elems.len() <= elems.len(),
                vs == type_views(elems@),
                rvs == type_views(r_elems@),
                strict == self.rule.strict_null_checks,
                tuple_spec(vs, rvs, 0, span, strict) == tuple_spec(vs, rvs, i as int, span, strict),
            decreases r_elems.len() - i,
        {
            assert(vs[i as int] == elems@[i as int]@);
            assert(rvs[i as int] == r_elems@[i as int]@);
            match self.assign_inner(&elems[i], &r_elems[i], span) {
                Ok(()) => {},
                Err(e) => {
                    if !r_elems[i].is_keyword(KeywordKind::Undefined) {
                        return Err(e);
                    }
                },
            }
            i += 1;
        }
        assert(rvs.len() == r_elems.len());
        Ok(())
    }

    /// Structural member assignment.
    fn assign_members(
        &self,
        to: &Type,
        rhs: &Type,
        members: &Vec<TypeElement>,
        span: Span,
    ) -> (res: Result<(), AssignError>)
        ensures
            result_view(res) == members_spec(
                to@,
                rhs@,
                element_views(members@),
                span,
                self.rule.strict_null_checks,
            ),
        decreases element_views(members@), 0nat, members.len() + 2,
    {
        let ghost ms = element_views(members@);
        assert(ms.len() == members.len());
        match rhs.normalize() {
            Type::TypeLit { members: rms, .. } => self.assign_object_members(
                to,
                rhs,
                members,
                rms,
                span,
            ),
            Type::Interface { body: rms, .. } => self.assign_object_members(
                to,
                rhs,
                members,
                rms,
                span,
            ),
            Type::Class(c) => {
                assert(rhs@.normalized() == TypeView::Class(c@));
                self.assign_members_from_class(to, rhs, members, c, span)
            },
            Type::ClassInstance { cls, .. } => {
                assert(rhs@.normalized() matches TypeView::ClassInstance { cls: c, .. } && c
                    == cls@);
                self.assign_members_from_instance(to, rhs, members, cls, span)
            },
            Type::Tuple { .. } | Type::Array { .. } | Type::Lit(_) => {
                if members.len() > 0 {
                    Err(self.fail(to, rhs, span))
                } else {
                    Ok(())
                }
            },
            _ => Ok(()),
        }
    }

    /// Member assignment from an instance of a class: only a demand for a
    /// property that the class declares is decided.
    fn assign_members_from_instance(
        &self,
        to: &Type,
        rhs: &Type,
        members: &Vec<TypeElement>,
        cls: &Class,
        span: Span,
    ) -> (res: Result<(), AssignError>)
        requires
            rhs@.normalized() matches TypeView::ClassInstance { cls: c, .. } && c == cls@,
        ensures
            result_view(res) == members_spec(
                to@,
                rhs@,
                element_views(members@),
                span,
                self.rule.strict_null_checks,
            ),
    {
        let ghost ms = element_views(members@);
        assert(ms.len() == members.len());
        let mut i: usize = 0;
        while i < members.len()
            invariant
                i <= members.len(),
                ms == element_views(members@),
                rhs@.normalized() matches TypeView::ClassInstance { cls: c, .. } && c == cls@,
                forall|j: int|
                    0 <= j < i ==> (#[trigger] ms[j] matches TypeElementView::Property { key, .. }
                        && has_class_property(cls@.body, key)),
            decreases members.len() - i,
        {
            assert(ms[i as int] == members@[i as int]@);
            let found = match &members[i] {
                TypeElement::Property { key, .. } => has_class_property_exec(&cls.body, key),
                _ => false,
            };
            if !found {
                return Err(self.undecided(to, rhs, span));
            }
            i += 1;
        }
        Ok(())
    }

    /// Member assignment from a class: only a demand for a constructor is
    /// decided.
    fn assign_members_from_class(
        &self,
        to: &Type,
        rhs: &Type,
        members: &Vec<TypeElement>,
        cls: &Class,
        span: Span,
    ) -> (res: Result<(), AssignError>)
        requires
            rhs@.normalized() == TypeView::Class(cls@),
        ensures
            result_view(res) == members_spec(
                to@,
                rhs@,
                element_views(members@),
                span,
                self.rule.strict_null_checks,
            ),
    {
        let ghost ms = element_views(members@);
        let ghost required = ErrorView::ConstructorRequired {
            span,
            lhs: to@.span(),
            rhs: rhs@.span(),
        };
        assert(ms.len() == members.len());
        let constructible = has_constructor_exec(&cls.body);
        let mut errors = no_errors();
        let mut i: usize = 0;
        while i < members.len()
            invariant
                i <= members.len(),
                ms == element_views(members@),
                rhs@.normalized() == TypeView::Class(cls@),
                constructible == has_constructor(cls@.body),
                required == (ErrorView::ConstructorRequired {
                    span,
                    lhs: to@.span(),
                    rhs: rhs@.span(),
                }),
                forall|j: int| 0 <= j < i ==> #[trigger] ms[j] is Constructor,
                constructible ==> error_views(errors@).len() == 0,
                !constructible ==> error_views(errors@) == Seq::new(i as nat, |k: int| required),
            decreases members.len() - i,
        {
            assert(ms[i as int] == members@[i as int]@);
            match &members[i] {
                TypeElement::Constructor { .. } => {
                    if !constructible {
                        let e = AssignError::ConstructorRequired {
                            span,
                            lhs: to.span(),
                            rhs: rhs.span(),
                        };
                        let ghost before = error_views(errors@);
                        push_error(&mut errors, e);
                        assert(before.push(required) =~= Seq::new(
                            (i + 1) as nat,
                            |k: int| required,
                        ));
                    }
                },
                _ => {
                    return Err(self.undecided(to, rhs, span));
                },
            }
            i += 1;
        }
        assert(error_views(errors@).len() == errors.len());
        if errors.len() == 0 {
            Ok(())
        } else {
            Err(AssignError::Errors { span, errors })
        }
    }

    /// Member assignment from an object-like source.
    fn assign_object_members(
        &self,
        to: &Type,
        rhs: &Type,
        members: &Vec<TypeElement>,
        rms: &Vec<TypeElement>,
        span: Span,
    ) -> (res: Result<(), AssignError>)
        ensures
            result_view(res) == object_members_spec(
                to@,
                rhs@,
                element_views(members@),
                element_views(rms@),
                span,
                self.rule.strict_null_checks,
            ),
        decreases element_views(members@), 0nat, members.len() + 1,
    {
        let ghost ms = element_views(members@);
        let ghost rvs = element_views(rms@);
        let ghost strict = self.rule.strict_null_checks;
        assert(ms.len() == members.len());
        let mut missing: Vec<TypeElement> = Vec::new();
        assert(element_views(missing@) =~= Seq::<TypeElementView>::empty());
        let mut i: usize = 0;
        while i < members.len()
            invariant
                i <= members.len(),
                ms == element_views(members@),
                rvs == element_views(rms@),
                strict == self.rule.strict_null_checks,
                missing_members(to@, rhs@, ms, rvs, i as nat, span, strict) == Ok::<
                    Seq<TypeElementView>,
                    ErrorView,
                >(element_views(missing@)),
            decreases members.len() - i,
        {
            assert(ms[i as int] == members@[i as int]@);
            match self.check_member(to, rhs, &members[i], rms, span) {
                Ok(true) => {},
                Ok(false) => {
                    let ghost before = element_views(missing@);
                    let copy = members[i].to_static();
                    missing.push(copy);
                    assert(element_views(missing@) =~= before.push(ms[i as int]));
                },
                Err(e) => {
                    proof {
                        lemma_missing_members_stops(
                            to@,
                            rhs@,
                            ms,
                            rvs,
                            (i + 1) as nat,
                            ms.len(),
                            span,
                            strict,
                        );
                    }
                    return Err(e);
                },
            }
            i += 1;
        }
        assert(element_views(missing@).len() == missing.len());
        if missing.len() == 0 {
            Ok(())
        } else {
            let e = AssignError::MissingFields { span, fields: missing };
            Err(AssignError::Errors { span, errors: one_error(e) })
        }
    }

    /// What becomes of one required member against the members of the
    /// source.
    fn check_member(
        &self,
        to: &Type,
        rhs: &Type,
        m: &TypeElement,
        rms: &Vec<TypeElement>,
        span: Span,
    ) -> (res: Result<bool, AssignError>)
        ensures
            outcome_view(res) == member_outcome(
                to@,
                rhs@,
                m@,
                element_views(rms@),
                span,
                self.rule.strict_null_checks,
            ),
        decreases m@, 0nat, 0nat,
    {
        let ghost rvs = element_views(rms@);
        match m {
            TypeElement::Property { key, ty, .. } => match find_property_index(rms, key) {
                None => Ok(false),
                Some(j) => {
                    proof {
                        lemma_find_property(rvs, key@, 0);
                    }
                    assert(rvs[j as int] == rms@[j as int]@);
                    let any = Type::any(span);
                    let r_ty: &Type = match &rms[j] {
                        TypeElement::Property { ty: Some(t), .. } => t,
                        _ => &any,
                    };
                    assert(r_ty@ == declared_or_any(rvs[j as int]->Property_ty, span));
                    let res = match ty {
                        Some(l_ty) => self.assign_inner(l_ty, r_ty, span),
                        None => match r_ty.normalize() {
                            Type::Ref { .. } => Err(self.undecided(&any, r_ty, span)),
                            _ => Ok(()),
                        },
                    };
                    match res {
                        Ok(()) => Ok(true),
                        Err(e) => Err(e),
                    }
                },
            },
            TypeElement::Method { key, signatures, .. } => match find_method_index(rms, key) {
                None => Ok(false),
                Some(j) => {
                    proof {
                        lemma_find_method(rvs, key@, 0);
                    }
                    assert(rvs[j as int] == rms@[j as int]@);
                    let same = match &rms[j] {
                        TypeElement::Method { signatures: r_signatures, .. } => signatures_eq(
                            signatures,
                            r_signatures,
                            true,
                        ),
                        _ => false,
                    };
                    if same {
                        Ok(true)
                    } else {
                        Err(self.undecided(to, rhs, span))
                    }
                },
            },
            TypeElement::Index { .. } => Ok(true),
            _ => Ok(has_equal_element_exec(rms, m)),
        }
    }
}

} // verus!
