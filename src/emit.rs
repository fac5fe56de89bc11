use vstd::prelude::*;
use crate::error::{ExtractError, Failure, Role};
use crate::model::{HandlerFn, HandlerKind};
use crate::strategy::{
    command_declarations, command_failure, event_declarations, event_failure,
    impl_command_handler, impl_event_handler, impl_event_sourcing_handler, sourcing_declarations,
    sourcing_failure, GeneratedBundle,
};

verus! {

/// The fragment made of the declarations `ds`, each followed by a newline.
pub open spec fn joined(ds: Seq<Seq<char>>) -> Seq<char>
    decreases ds.len(),
{
    if ds.len() == 0 {
        Seq::empty()
    } else {
        joined(ds.drop_last()) + ds.last() + "\n"@
    }
}

/// Assembles a bundle into the fragment that replaces the annotated function.
pub fn emit(b: &GeneratedBundle) -> (r: String)
    ensures
        r@ == joined(b.decl_views()),
{
    let mut out = String::new();
    let mut i: usize = 0;
    while i < b.declarations.len()
        invariant
            i <= b.declarations@.len(),
            out@ == joined(b.decl_views().take(i as int)),
        decreases b.declarations@.len() - i,
    {
        out.append(b.declarations[i].as_str());
        out.append("\n");
        assert(b.decl_views().take(i + 1).drop_last() =~= b.decl_views().take(i as int));
        i += 1;
    }
    assert(b.decl_views().take(i as int) =~= b.decl_views());
    out
}

/// The outcome of transforming `f` as a handler of kind `kind`: the first
/// structural failure with its role, or the emitted fragment.
pub open spec fn transform_result(kind: HandlerKind, f: HandlerFn) -> Result<
    Seq<char>,
    (Role, Failure),
> {
    let fail = match kind {
        HandlerKind::EventHandler => event_failure(f.sig),
        HandlerKind::CommandHandler => command_failure(f.sig),
        HandlerKind::EventSourcingHandler => sourcing_failure(f.sig),
    };
    match fail {
        Some(rf) => Err(rf),
        None => Ok(
            joined(
                match kind {
                    HandlerKind::EventHandler => event_declarations(f),
                    HandlerKind::CommandHandler => command_declarations(f),
                    HandlerKind::EventSourcingHandler => sourcing_declarations(f),
                },
            ),
        ),
    }
}

/// `r` is the outcome `transform_result(kind, f)` in executable form.
pub open spec fn transformed(kind: HandlerKind, f: HandlerFn, r: Result<String, ExtractError>) -> bool {
    match r {
        Ok(s) => transform_result(kind, f) == Ok::<Seq<char>, (Role, Failure)>(s@),
        Err(e) => transform_result(kind, f) == Err::<Seq<char>, (Role, Failure)>((e.role, e.failure))
            && e.handler@ == f.sig.name@,
    }
}

/// Transforms an event handler into its capability implementation,
/// registration function and dispatch helper.
pub fn event_handler(f: &HandlerFn) -> (r: Result<String, ExtractError>)
    ensures
        transformed(HandlerKind::EventHandler, *f, r),
{
    let b = impl_event_handler(f)?;
    Ok(emit(&b))
}

/// Transforms a command handler into its registration and lock-holding
/// implementation function.
pub fn command_handler(f: &HandlerFn) -> (r: Result<String, ExtractError>)
    ensures
        transformed(HandlerKind::CommandHandler, *f, r),
{
    let b = impl_command_handler(f)?;
    Ok(emit(&b))
}

/// Transforms an event-sourcing handler into its synchronous capability
/// implementation, registration function and dispatch helper.
pub fn event_sourcing_handler(f: &HandlerFn) -> (r: Result<String, ExtractError>)
    ensures
        transformed(HandlerKind::EventSourcingHandler, *f, r),
{
    let b = impl_event_sourcing_handler(f)?;
    Ok(emit(&b))
}

/// Transforms `f` with the strategy that `kind` selects.
pub fn transform(kind: HandlerKind, f: &HandlerFn) -> (r: Result<String, ExtractError>)
    ensures
        transformed(kind, *f, r),
{
    match kind {
        HandlerKind::EventHandler => event_handler(f),
        HandlerKind::CommandHandler => command_handler(f),
        HandlerKind::EventSourcingHandler => event_sourcing_handler(f),
    }
}

} // verus!
