//! The classification of a field: required, optional or repeated.

use crate::schema::{FieldDescriptor, FieldDescriptorView};
use crate::syntax::{
    ArgumentsView, GenericArgument, PathArguments, PathSegment, SegmentView, TypeExpr, TypeView,
};
use crate::text::text_is;
use vstd::prelude::*;
use vstd::string::StringExecFns;

verus! {

/// How the builder treats a field.
#[derive(Debug, PartialEq, Eq)]
pub enum FieldClassification {
    /// The field must be set before the target can be built; `ty` is its
    /// declared type.
    Required { ty: TypeExpr },
    /// The field may stay unset; its declared type is `Option<inner>`.
    Optional { inner: TypeExpr },
    /// The field collects elements of type `element`, one at a time through
    /// the method `alias`.
    Repeated { element: TypeExpr, alias: String },
}

/// The mathematical value of a [`FieldClassification`].
pub enum ClassificationView {
    Required { ty: TypeView },
    Optional { inner: TypeView },
    Repeated { element: TypeView, alias: Seq<char> },
}

impl View for FieldClassification {
    type V = ClassificationView;

    open spec fn view(&self) -> ClassificationView {
        match self {
            FieldClassification::Required { ty } => ClassificationView::Required { ty: ty@ },
            FieldClassification::Optional { inner } => ClassificationView::Optional {
                inner: inner@,
            },
            FieldClassification::Repeated { element, alias } => ClassificationView::Repeated {
                element: element@,
                alias: alias@,
            },
        }
    }
}

/// For a type written as one name with exactly one type between angle
/// brackets, as `Vec<String>`: that name and that type.
pub open spec fn wrapped(ty: TypeView) -> Option<(Seq<char>, TypeView)> {
    if ty is Path && ty->segments.len() == 1 && ty->segments[0].arguments is AngleBracketed
        && ty->segments[0].arguments->args.len() == 1 && ty->segments[0].arguments->args[0] is Type {
        Some((ty->segments[0].name, ty->segments[0].arguments->args[0]->ty))
    } else {
        None
    }
}

/// For a type written `Option<T>`: `T`.
pub open spec fn option_inner(ty: TypeView) -> Option<TypeView> {
    match wrapped(ty) {
        Some((name, inner)) => if name == "Option"@ {
            Some(inner)
        } else {
            None
        },
        None => None,
    }
}

/// The element type that is taken where a type names none: `String`.
pub open spec fn conventional_element() -> TypeView {
    TypeView::Path {
        global: false,
        segments: seq![SegmentView { name: "String"@, arguments: ArgumentsView::Bare }],
    }
}

/// The type of the elements of a repeated field of type `ty`. Where `ty` is
/// written as a wrapper around one type, as `Vec<T>`, it is that type, read
/// off the field's own type. Where `ty` names no element type (an alias such
/// as `Bytes`, a path such as `std::vec::Vec<T>`, an array), the element
/// type is `String` by convention: nothing can be read off such a type, and
/// the field still gets its appender.
pub open spec fn element_type(ty: TypeView) -> TypeView {
    match wrapped(ty) {
        Some((_, inner)) => inner,
        None => conventional_element(),
    }
}

/// The classification of a field. An annotated field is repeated, whatever
/// its type: the annotation decides before the type is looked at, so an
/// annotated `Option<T>` is repeated with elements of type `T`, and not
/// optional. A field without annotation is optional if its type is written
/// `Option<T>`, and required otherwise.
pub open spec fn classification(field: FieldDescriptorView) -> ClassificationView {
    match field.annotation {
        Some(annotation) => ClassificationView::Repeated {
            element: element_type(field.declared_type),
            alias: annotation.alias,
        },
        None => match option_inner(field.declared_type) {
            Some(inner) => ClassificationView::Optional { inner },
            None => ClassificationView::Required { ty: field.declared_type },
        },
    }
}

/// The view of a wrapper's name and inner type.
pub open spec fn wrapped_view(parts: Option<(&String, &TypeExpr)>) -> Option<(Seq<char>, TypeView)> {
    match parts {
        Some((name, inner)) => Some((name@, inner@)),
        None => None,
    }
}

/// The view of an optional reference to a type.
pub open spec fn type_view(ty: Option<&TypeExpr>) -> Option<TypeView> {
    match ty {
        Some(t) => Some(t@),
        None => None,
    }
}

/// Takes a wrapper type apart into its name and the type it wraps.
pub fn unwrap_type(ty: &TypeExpr) -> (parts: Option<(&String, &TypeExpr)>)
    ensures
        wrapped_view(parts) == wrapped(ty@),
{
    match ty {
        TypeExpr::Path { global: _, segments } => {
            if segments.len() != 1 {
                return None;
            }
            let segment = &segments[0];
            match &segment.arguments {
                PathArguments::AngleBracketed { args } => {
                    if args.len() != 1 {
                        return None;
                    }
                    match &args[0] {
                        GenericArgument::Type { ty: inner } => Some((&segment.name, inner)),
                        _ => None,
                    }
                },
                _ => None,
            }
        },
        _ => None,
    }
}

/// The type inside `Option<..>`, if `ty` is written so.
pub fn unwrap_option(ty: &TypeExpr) -> (inner: Option<&TypeExpr>)
    ensures
        type_view(inner) == option_inner(ty@),
{
    match unwrap_type(ty) {
        Some((name, inner)) => {
            if text_is(name, "Option") {
                Some(inner)
            } else {
                None
            }
        },
        None => None,
    }
}

/// The element type by convention: `String`.
pub fn string_type() -> (ty: TypeExpr)
    ensures
        ty@ == conventional_element(),
{
    let mut segments: Vec<PathSegment> = Vec::new();
    segments.push(PathSegment { name: String::from_str("String"), arguments: PathArguments::Bare });
    let ty = TypeExpr::Path { global: false, segments };
    assert(ty@->segments =~= conventional_element()->segments);
    ty
}

/// The type of the elements of a repeated field of type `ty`.
pub fn element_of(ty: &TypeExpr) -> (element: TypeExpr)
    ensures
        element@ == element_type(ty@),
{
    match unwrap_type(ty) {
        Some((_, inner)) => inner.clone(),
        None => string_type(),
    }
}

/// Classifies a field.
pub fn classify(field: &FieldDescriptor) -> (class: FieldClassification)
    ensures
        class@ == classification(field@),
{
    match &field.annotation {
        Some(annotation) => FieldClassification::Repeated {
            element: element_of(&field.declared_type),
            alias: annotation.alias.clone(),
        },
        None => match unwrap_option(&field.declared_type) {
            Some(inner) => FieldClassification::Optional { inner: inner.clone() },
            None => FieldClassification::Required { ty: field.declared_type.clone() },
        },
    }
}

} // verus!
