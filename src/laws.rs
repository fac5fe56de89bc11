use vstd::prelude::*;
use crate::emit::{joined, transform_result};
use crate::error::{message_of, failure_text, role_label, Failure, Role};
use crate::extract::{param_failure, param_type, return_failure};
use crate::model::{FnParam, GenericArg, HandlerFn, HandlerKind, Pattern, TypeExpr};
use crate::render::{quoted, registration_decl, synth_ident};
use crate::resolve::{canonical_name, inner_element, nested_return_name};
use crate::strategy::{
    command_declarations, command_registry_type, event_declarations,
    event_registry_type, registry_key, sourcing_declarations,
    sourcing_registry_type, target_text,
};

verus! {

/// `part` occurs in `s` as a contiguous run.
pub open spec fn contains(s: Seq<char>, part: Seq<char>) -> bool {
    exists|i: int| 0 <= i <= s.len() - part.len() && #[trigger] s.subrange(i, i + part.len()) == part
}

/// `outer` is a path type whose last segment has `inner` as its first
/// generic argument, as `Outer<inner, ...>` is.
pub open spec fn wraps(outer: TypeExpr, inner: TypeExpr) -> bool {
    match outer {
        TypeExpr::Path { segments, .. } => segments@.len() > 0 && segments@.last().args@.len() > 0
            && segments@.last().args@[0] == GenericArg::Type(inner),
        _ => false,
    }
}

proof fn lemma_contains_at(pre: Seq<char>, part: Seq<char>, post: Seq<char>)
    ensures
        contains(pre + part + post, part),
{
    let s = pre + part + post;
    assert(s.subrange(pre.len() as int, (pre.len() + part.len()) as int) =~= part);
}

/// Every registration declaration holds its key as a string literal.
pub proof fn lemma_registration_holds_key(
    name: Seq<char>,
    registry: Seq<char>,
    insert: Seq<char>,
    key: Seq<char>,
    ty: Seq<char>,
    helper: Seq<char>,
    args: Seq<char>,
)
    ensures
        contains(registration_decl(name, registry, insert, key, ty, helper, args), quoted(key)),
{
    let pre = "fn "@ + name + "(registry: &mut ::dendrite::axon_utils::TheHandlerRegistry<"@
        + registry + ">) -> Result<()> {\n    registry."@ + insert + "(\n        "@;
    let post = ",\n        &"@ + ty + "::decode,\n        &(|c,p| Box::pin("@ + helper + "("@ + args
        + ")))\n    )\n}"@;
    assert(registration_decl(name, registry, insert, key, ty, helper, args) =~= pre + quoted(key)
        + post);
    lemma_contains_at(pre, quoted(key), post);
}

proof fn lemma_contains_shift(pre: Seq<char>, s: Seq<char>, post: Seq<char>, part: Seq<char>)
    requires
        contains(s, part),
    ensures
        contains(pre + s + post, part),
{
    let i = choose|i: int|
        0 <= i <= s.len() - part.len() && #[trigger] s.subrange(i, i + part.len()) == part;
    let t = pre + s + post;
    let x: int = pre.len() + i;
    assert(t.subrange(x, x + part.len()) =~= part);
}

/// What one declaration contains, the emitted fragment contains.
pub proof fn lemma_joined_contains(ds: Seq<Seq<char>>, i: int, part: Seq<char>)
    requires
        0 <= i < ds.len(),
        contains(ds[i], part),
    ensures
        contains(joined(ds), part),
    decreases ds.len(),
{
    if i == ds.len() - 1 {
        lemma_contains_shift(joined(ds.drop_last()), ds.last(), "\n"@, part);
    } else {
        assert(ds.drop_last()[i] == ds[i]);
        lemma_joined_contains(ds.drop_last(), i, part);
        lemma_contains_shift(Seq::empty(), joined(ds.drop_last()), ds.last() + "\n"@, part);
        assert(joined(ds) =~= Seq::empty() + joined(ds.drop_last()) + (ds.last() + "\n"@));
    }
}

/// For every handler that a strategy accepts, the fragment it emits
/// registers under the canonical name of the first parameter's type, written
/// as a string literal in the registration call.
pub proof fn lemma_registration_key(kind: HandlerKind, f: HandlerFn)
    ensures
        transform_result(kind, f) is Ok ==> canonical_name(param_type(f.sig, 0)) == Some(
            registry_key(f.sig),
        ) && contains(transform_result(kind, f)->Ok_0, quoted(registry_key(f.sig))),
{
    let sig = f.sig;
    let n = sig.name@;
    let key = registry_key(sig);
    let ev = target_text(sig, 0);
    let proj = target_text(sig, 1);
    if transform_result(kind, f) is Ok {
        match kind {
            HandlerKind::EventHandler => {
                lemma_registration_holds_key(
                    n,
                    event_registry_type(proj),
                    "insert"@,
                    key,
                    ev,
                    synth_ident(n, "_helper"@),
                    "Box::from(c), p"@,
                );
                lemma_joined_contains(event_declarations(f), 2, quoted(key));
            },
            HandlerKind::EventSourcingHandler => {
                lemma_registration_holds_key(
                    n,
                    sourcing_registry_type(proj),
                    "insert_with_output"@,
                    key,
                    ev,
                    synth_ident(n, "_helper"@),
                    "Box::from(c), p"@,
                );
                lemma_joined_contains(sourcing_declarations(f), 3, quoted(key));
            },
            HandlerKind::CommandHandler => {
                lemma_registration_holds_key(
                    n,
                    command_registry_type(inner_element(param_type(sig, 1))->0.text_of()),
                    "insert_with_output"@,
                    key,
                    ev,
                    synth_ident(n, "_impl"@),
                    "c, p"@,
                );
                lemma_joined_contains(command_declarations(f), 1, quoted(key));
            },
        }
    }
}

/// Wrapping a named type in two levels of generic wrappers and resolving the
/// nested return type gives back that name.
pub proof fn lemma_nested_unwrap(outer: TypeExpr, mid: TypeExpr, inner: TypeExpr)
    requires
        wraps(outer, mid),
        wraps(mid, inner),
        canonical_name(inner) is Some,
    ensures
        nested_return_name(outer) == canonical_name(inner),
        return_failure(outer) is None,
{
}

/// A signature with fewer than two parameters fails under every strategy,
/// so nothing is emitted for it.
pub proof fn lemma_too_few_parameters(f: HandlerFn)
    requires
        f.sig.params@.len() < 2,
    ensures
        transform_result(HandlerKind::EventHandler, f) is Err,
        transform_result(HandlerKind::CommandHandler, f) is Err,
        transform_result(HandlerKind::EventSourcingHandler, f) is Err,
{
    assert(param_failure(f.sig, 0) is Some || param_failure(f.sig, 1) is Some);
}

/// A first parameter that is not a simple named binding fails every
/// strategy with that failure, in the role of the first parameter.
pub proof fn lemma_non_simple_first_parameter(f: HandlerFn)
    requires
        f.sig.params@.len() > 0,
        !(f.sig.params@[0] matches FnParam::Typed { pat: Pattern::Ident(_), .. }),
    ensures
        transform_result(HandlerKind::EventHandler, f) == Err::<Seq<char>, (Role, Failure)>(
            (Role::Event, Failure::NotSimpleBinding),
        ),
        transform_result(HandlerKind::CommandHandler, f) == Err::<Seq<char>, (Role, Failure)>(
            (Role::Command, Failure::NotSimpleBinding),
        ),
        transform_result(HandlerKind::EventSourcingHandler, f) == Err::<Seq<char>, (Role, Failure)>(
            (Role::Event, Failure::NotSimpleBinding),
        ),
{
}

/// Every diagnostic names its handler and its role.
pub proof fn lemma_message_names_handler_and_role(handler: Seq<char>, role: Role, failure: Failure)
    ensures
        contains(message_of(handler, role, failure), handler),
        contains(message_of(handler, role, failure), role_label(role)),
{
    let m = message_of(handler, role, failure);
    lemma_contains_at(
        failure_text(failure) + "\""@,
        handler,
        "\": \""@ + role_label(role) + "\""@,
    );
    assert(m =~= failure_text(failure) + "\""@ + handler + ("\": \""@ + role_label(role) + "\""@));
    lemma_contains_at(
        failure_text(failure) + "\""@ + handler + "\": \""@,
        role_label(role),
        "\""@,
    );
}

/// A command handler whose parameters are well formed but whose return type
/// is not a two-level generic wrapper around a named type fails in the
/// result role.
pub proof fn lemma_malformed_command_result(f: HandlerFn)
    requires
        param_failure(f.sig, 0) is None,
        param_failure(f.sig, 1) is None,
        inner_element(param_type(f.sig, 1)) is Some,
        canonical_name(param_type(f.sig, 0)) is Some,
        f.sig.output is None || nested_return_name(f.sig.output->0) is None,
    ensures
        transform_result(HandlerKind::CommandHandler, f) is Err,
        transform_result(HandlerKind::CommandHandler, f)->Err_0.0 == Role::Result,
{
}

} // verus!
