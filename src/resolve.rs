use vstd::prelude::*;
use crate::model::{GenericArg, TypeExpr};

verus! {

/// The last segment of a path type; `None` for any other shape.
pub open spec fn path_name(t: TypeExpr) -> Option<Seq<char>> {
    match t {
        TypeExpr::Path { segments, .. } => if segments@.len() > 0 {
            Some(segments@.last().ident@)
        } else {
            None
        },
        _ => None,
    }
}

/// The canonical name of a type: the last segment of its path, or of the
/// path a single reference points to (`&X`, `&mut X`). `None` for any other
/// shape, a reference to a reference included.
pub open spec fn canonical_name(t: TypeExpr) -> Option<Seq<char>> {
    match t {
        TypeExpr::Reference { elem, .. } => path_name(*elem),
        _ => path_name(t),
    }
}

/// The element type of a reference type.
pub open spec fn inner_element(t: TypeExpr) -> Option<TypeExpr> {
    match t {
        TypeExpr::Reference { elem, .. } => Some(*elem),
        _ => None,
    }
}

/// The first generic argument of the last path segment, when that argument
/// is a type.
pub open spec fn first_generic(t: TypeExpr) -> Option<TypeExpr> {
    match t {
        TypeExpr::Path { segments, .. } => if segments@.len() > 0
            && segments@.last().args@.len() > 0 {
            match segments@.last().args@[0] {
                GenericArg::Type(a) => Some(a),
                GenericArg::Other => None,
            }
        } else {
            None
        },
        _ => None,
    }
}

/// The canonical name of the payload of a two-level wrapper such as
/// `Result<Option<X>>`.
pub open spec fn nested_return_name(t: TypeExpr) -> Option<Seq<char>> {
    match first_generic(t) {
        Some(a) => match first_generic(a) {
            Some(b) => canonical_name(b),
            None => None,
        },
        None => None,
    }
}

/// The type a value of `t` refers to: `t` with one outer reference removed.
pub open spec fn target(t: TypeExpr) -> TypeExpr {
    match t {
        TypeExpr::Reference { elem, .. } => *elem,
        _ => t,
    }
}

/// Returns the last segment of path type `t`, see [`path_name`].
pub fn path_type_name(t: &TypeExpr) -> (r: Option<&String>)
    ensures
        match r {
            Some(n) => path_name(*t) == Some(n@),
            None => path_name(*t) is None,
        },
{
    match t {
        TypeExpr::Path { segments, .. } => {
            if segments.len() > 0 {
                Some(&segments[segments.len() - 1].ident)
            } else {
                None
            }
        },
        _ => None,
    }
}

/// Returns the canonical name of `t`, see [`canonical_name`].
pub fn canonical_type_name(t: &TypeExpr) -> (r: Option<&String>)
    ensures
        match r {
            Some(n) => canonical_name(*t) == Some(n@),
            None => canonical_name(*t) is None,
        },
{
    match t {
        TypeExpr::Reference { elem, .. } => path_type_name(elem),
        _ => path_type_name(t),
    }
}

/// Returns the element type of a reference type.
pub fn inner_element_type(t: &TypeExpr) -> (r: Option<&TypeExpr>)
    ensures
        match r {
            Some(e) => inner_element(*t) == Some(*e),
            None => inner_element(*t) is None,
        },
{
    match t {
        TypeExpr::Reference { elem, .. } => Some(elem),
        _ => None,
    }
}

/// Returns the first generic type argument of `t`'s last path segment.
pub fn first_generic_type_argument(t: &TypeExpr) -> (r: Option<&TypeExpr>)
    ensures
        match r {
            Some(a) => first_generic(*t) == Some(*a),
            None => first_generic(*t) is None,
        },
{
    match t {
        TypeExpr::Path { segments, .. } => {
            if segments.len() > 0 {
                let last = &segments[segments.len() - 1];
                if last.args.len() > 0 {
                    match &last.args[0] {
                        GenericArg::Type(a) => Some(a),
                        GenericArg::Other => None,
                    }
                } else {
                    None
                }
            } else {
                None
            }
        },
        _ => None,
    }
}

/// Returns the canonical name of the payload of a two-level wrapper type.
pub fn nested_return_type_name(t: &TypeExpr) -> (r: Option<&String>)
    ensures
        match r {
            Some(n) => nested_return_name(*t) == Some(n@),
            None => nested_return_name(*t) is None,
        },
{
    match first_generic_type_argument(t) {
        Some(a) => match first_generic_type_argument(a) {
            Some(b) => canonical_type_name(b),
            None => None,
        },
        None => None,
    }
}

/// Returns `t` with one outer reference removed.
pub fn target_type(t: &TypeExpr) -> (r: &TypeExpr)
    ensures
        *r == target(*t),
{
    match t {
        TypeExpr::Reference { elem, .. } => elem,
        _ => t,
    }
}

} // verus!
