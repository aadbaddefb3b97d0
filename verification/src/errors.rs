//! What an assignment can fail with.

use vstd::prelude::*;
use swc_common::Span;
use crate::ty::{element_views, Type, TypeElement, TypeElementView, TypeView};

verus! {

/// A failed assignment: a tree whose inner nodes aggregate or wrap the
/// failures that caused them.
#[derive(Debug, PartialEq, Eq)]
pub enum AssignError {
    /// A rule rejected the pair.
    AssignFailed { span: Span, left: Type, right: Type, cause: Vec<AssignError> },
    /// No alternative of the target accepted the source, or some
    /// alternative of the source was not accepted.
    UnionError { span: Span, errors: Vec<AssignError> },
    /// A part of an intersection rejected the source.
    IntersectionError { span: Span, error: Box<AssignError> },
    /// The source lacks members that the target requires.
    MissingFields { span: Span, fields: Vec<TypeElement> },
    /// The target requires a constructor that the source does not have.
    ConstructorRequired { span: Span, lhs: Span, rhs: Span },
    /// A wrapper object was assigned to its primitive.
    AssignedWrapperToPrimitive { span: Span },
    /// The target is the `this` type.
    CannotAssignToThis { span: Span },
    /// Several independent failures of one query.
    Errors { span: Span, errors: Vec<AssignError> },
    /// The pair lies outside of what the analyzer decides.
    Unimplemented { span: Span, left: Type, right: Type },
}

pub enum ErrorView {
    AssignFailed { span: Span, left: TypeView, right: TypeView, cause: Seq<ErrorView> },
    UnionError { span: Span, errors: Seq<ErrorView> },
    IntersectionError { span: Span, error: Box<ErrorView> },
    MissingFields { span: Span, fields: Seq<TypeElementView> },
    ConstructorRequired { span: Span, lhs: Span, rhs: Span },
    AssignedWrapperToPrimitive { span: Span },
    CannotAssignToThis { span: Span },
    Errors { span: Span, errors: Seq<ErrorView> },
    Unimplemented { span: Span, left: TypeView, right: TypeView },
}

/// The views of a sequence of errors, in order.
pub open spec fn error_views(es: Seq<AssignError>) -> Seq<ErrorView>
    decreases es,
{
    Seq::new(
        es.len(),
        |i: int|
            if 0 <= i < es.len() {
                error_view(es[i])
            } else {
                arbitrary()
            },
    )
}

/// The mathematical view of an error.
pub open spec fn error_view(e: AssignError) -> ErrorView
    decreases e,
{
    match e {
        AssignError::AssignFailed { span, left, right, cause } => ErrorView::AssignFailed {
            span,
            left: left@,
            right: right@,
            cause: error_views(cause@),
        },
        AssignError::UnionError { span, errors } => ErrorView::UnionError {
            span,
            errors: error_views(errors@),
        },
        AssignError::IntersectionError { span, error } => ErrorView::IntersectionError {
            span,
            error: Box::new(error_view(*error)),
        },
        AssignError::MissingFields { span, fields } => ErrorView::MissingFields {
            span,
            fields: element_views(fields@),
        },
        AssignError::ConstructorRequired { span, lhs, rhs } => ErrorView::ConstructorRequired {
            span,
            lhs,
            rhs,
        },
        AssignError::AssignedWrapperToPrimitive { span } => ErrorView::AssignedWrapperToPrimitive {
            span,
        },
        AssignError::CannotAssignToThis { span } => ErrorView::CannotAssignToThis { span },
        AssignError::Errors { span, errors } => ErrorView::Errors {
            span,
            errors: error_views(errors@),
        },
        AssignError::Unimplemented { span, left, right } => ErrorView::Unimplemented {
            span,
            left: left@,
            right: right@,
        },
    }
}

impl View for AssignError {
    type V = ErrorView;

    open spec fn view(&self) -> ErrorView {
        error_view(*self)
    }
}

/// No errors.
pub fn no_errors() -> (r: Vec<AssignError>)
    ensures
        error_views(r@) == Seq::<ErrorView>::empty(),
{
    let r: Vec<AssignError> = Vec::new();
    assert(error_views(r@) =~= Seq::<ErrorView>::empty());
    r
}

/// The one error `e`.
pub fn one_error(e: AssignError) -> (r: Vec<AssignError>)
    ensures
        error_views(r@) == seq![e@],
{
    let mut r: Vec<AssignError> = Vec::new();
    r.push(e);
    assert(error_views(r@) =~= seq![e@]);
    r
}

/// Appends `e` to `errors`.
pub fn push_error(errors: &mut Vec<AssignError>, e: AssignError)
    ensures
        error_views(final(errors)@) == error_views(old(errors)@).push(e@),
{
    errors.push(e);
    assert(error_views(errors@) =~= error_views(old(errors)@).push(e@));
}

} // verus!
