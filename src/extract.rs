use vstd::prelude::*;
use crate::error::{ExtractError, Failure, Role};
use crate::model::{FnParam, FunctionSignature, Pattern, TypeExpr};
use crate::resolve::{
    canonical_name, canonical_type_name, first_generic, first_generic_type_argument,
    inner_element, inner_element_type,
};

verus! {

/// Why parameter `i` of `sig` is not a simple named binding, if it is not.
pub open spec fn param_failure(sig: FunctionSignature, i: int) -> Option<Failure> {
    if i < 0 || i >= sig.params@.len() {
        Some(Failure::MissingArgument)
    } else {
        match sig.params@[i] {
            FnParam::Typed { pat: Pattern::Ident(_), .. } => None,
            _ => Some(Failure::NotSimpleBinding),
        }
    }
}

/// The binding name of parameter `i` (meaningful where `param_failure` is `None`).
pub open spec fn param_name(sig: FunctionSignature, i: int) -> Seq<char> {
    match sig.params@[i] {
        FnParam::Typed { pat: Pattern::Ident(n), .. } => n@,
        _ => Seq::empty(),
    }
}

/// The declared type of parameter `i` (meaningful where `param_failure` is `None`).
pub open spec fn param_type(sig: FunctionSignature, i: int) -> TypeExpr {
    match sig.params@[i] {
        FnParam::Typed { ty, .. } => ty,
        _ => arbitrary(),
    }
}

/// Why the payload name of a two-level wrapper type cannot be found, if it cannot.
pub open spec fn return_failure(t: TypeExpr) -> Option<Failure> {
    match first_generic(t) {
        None => Some(Failure::NoGenericArgument),
        Some(a) => match first_generic(a) {
            None => Some(Failure::NoGenericArgument),
            Some(b) => if canonical_name(b) is None {
                Some(Failure::NoReturnTypeIdentifier)
            } else {
                None
            },
        },
    }
}

/// `e` reports `failure` in `role` for the handler named `handler`.
pub open spec fn reports(e: ExtractError, handler: Seq<char>, role: Role, failure: Failure) -> bool {
    e.handler@ == handler && e.role == role && e.failure == failure
}

/// Returns the binding name and the declared type of parameter `i`; fails
/// when there is no such parameter or it is not a simple named binding.
pub fn split_argument(sig: &FunctionSignature, i: usize, role: Role) -> (r: Result<
    (&String, &TypeExpr),
    ExtractError,
>)
    ensures
        match r {
            Ok((n, t)) => param_failure(*sig, i as int) is None && n@ == param_name(*sig, i as int)
                && *t == param_type(*sig, i as int),
            Err(e) => param_failure(*sig, i as int) == Some(e.failure) && e.role == role
                && e.handler@ == sig.name@,
        },
{
    if i >= sig.params.len() {
        return Err(ExtractError::new(&sig.name, role, Failure::MissingArgument));
    }
    match &sig.params[i] {
        FnParam::Typed { pat: Pattern::Ident(n), ty } => Ok((n, ty)),
        _ => Err(ExtractError::new(&sig.name, role, Failure::NotSimpleBinding)),
    }
}

/// Returns the canonical name of `t`, or fails naming `handler` and `role`.
pub fn get_type_ident<'a>(t: &'a TypeExpr, handler: &String, role: Role) -> (r: Result<
    &'a String,
    ExtractError,
>)
    ensures
        match r {
            Ok(n) => canonical_name(*t) == Some(n@),
            Err(e) => canonical_name(*t) is None && reports(
                e,
                handler@,
                role,
                Failure::NoTypeIdentifier,
            ),
        },
{
    match canonical_type_name(t) {
        Some(n) => Ok(n),
        None => Err(ExtractError::new(handler, role, Failure::NoTypeIdentifier)),
    }
}

/// Returns the element type of reference type `t`, or fails naming
/// `handler` and `role`.
pub fn get_elem_type_argument<'a>(t: &'a TypeExpr, handler: &String, role: Role) -> (r: Result<
    &'a TypeExpr,
    ExtractError,
>)
    ensures
        match r {
            Ok(a) => inner_element(*t) == Some(*a),
            Err(e) => inner_element(*t) is None && reports(e, handler@, role, Failure::NotReference),
        },
{
    match inner_element_type(t) {
        Some(a) => Ok(a),
        None => Err(ExtractError::new(handler, role, Failure::NotReference)),
    }
}

/// Returns the first generic type argument of `t`, or fails naming
/// `handler` and `role`.
pub fn get_first_generic_type_argument<'a>(
    t: &'a TypeExpr,
    handler: &String,
    role: Role,
) -> (r: Result<&'a TypeExpr, ExtractError>)
    ensures
        match r {
            Ok(a) => first_generic(*t) == Some(*a),
            Err(e) => first_generic(*t) is None && reports(
                e,
                handler@,
                role,
                Failure::NoGenericArgument,
            ),
        },
{
    match first_generic_type_argument(t) {
        Some(a) => Ok(a),
        None => Err(ExtractError::new(handler, role, Failure::NoGenericArgument)),
    }
}

/// Returns the canonical name of the payload of the two-level wrapper type
/// `t` (`Result<Option<X>>` gives `X`), or fails naming `handler` and `role`.
pub fn get_return_type_ident<'a>(t: &'a TypeExpr, handler: &String, role: Role) -> (r: Result<
    &'a String,
    ExtractError,
>)
    ensures
        match r {
            Ok(n) => return_failure(*t) is None && crate::resolve::nested_return_name(*t) == Some(
                n@,
            ),
            Err(e) => return_failure(*t) == Some(e.failure) && e.role == role && e.handler@
                == handler@,
        },
{
    let a = get_first_generic_type_argument(t, handler, role)?;
    let b = get_first_generic_type_argument(a, handler, role)?;
    match canonical_type_name(b) {
        Some(n) => Ok(n),
        None => Err(ExtractError::new(handler, role, Failure::NoReturnTypeIdentifier)),
    }
}

/// Returns the declared return type of `sig`, or fails naming its handler
/// and `role`.
pub fn get_output_type<'a>(sig: &'a FunctionSignature, role: Role) -> (r: Result<
    &'a TypeExpr,
    ExtractError,
>)
    ensures
        match r {
            Ok(t) => sig.output == Some(*t),
            Err(e) => sig.output is None && reports(e, sig.name@, role, Failure::MissingOutputType),
        },
{
    match &sig.output {
        Some(t) => Ok(t),
        None => Err(ExtractError::new(&sig.name, role, Failure::MissingOutputType)),
    }
}

} // verus!
