use vstd::prelude::*;
use crate::error::{ExtractError, Failure, Role};
use crate::extract::{
    get_elem_type_argument, get_output_type, get_return_type_ident, get_type_ident, param_failure,
    param_name, param_type, return_failure, split_argument,
};
use crate::model::{FunctionSignature, HandlerFn};
use crate::render::{
    async_apply, async_apply_decl, command_impl, command_impl_decl, event_helper,
    event_helper_decl, registration, registration_decl, shared_context, shared_context_type,
    sourcing_helper, sourcing_helper_decl, sync_apply, sync_apply_decl, synth_ident,
    synthesize_ident, use_alias, use_alias_decl,
};
use crate::resolve::{canonical_name, inner_element, nested_return_name, target, target_type};

verus! {

/// The declarations generated for one handler, in emission order, with the
/// registry key they register under and, for a command handler, the tag
/// under which its payload is serialized.
pub struct GeneratedBundle {
    pub key: String,
    pub payload_tag: Option<String>,
    pub declarations: Vec<String>,
}

impl GeneratedBundle {
    pub open spec fn decl_views(self) -> Seq<Seq<char>> {
        self.declarations@.map_values(|d: String| d@)
    }
}

pub open spec fn registry_alias_path() -> Seq<char> {
    "::dendrite::axon_utils::HandlerRegistry"@
}

pub open spec fn applicable_alias_path() -> Seq<char> {
    "::dendrite::axon_utils::ApplicableTo"@
}

/// The first structural failure of `sig` as an event handler, with its role.
pub open spec fn event_failure(sig: FunctionSignature) -> Option<(Role, Failure)> {
    if param_failure(sig, 0) is Some {
        Some((Role::Event, param_failure(sig, 0)->0))
    } else if param_failure(sig, 1) is Some {
        Some((Role::QueryModel, param_failure(sig, 1)->0))
    } else if canonical_name(param_type(sig, 0)) is None {
        Some((Role::Event, Failure::NoTypeIdentifier))
    } else {
        None
    }
}

/// The first structural failure of `sig` as an event-sourcing handler.
pub open spec fn sourcing_failure(sig: FunctionSignature) -> Option<(Role, Failure)> {
    if param_failure(sig, 0) is Some {
        Some((Role::Event, param_failure(sig, 0)->0))
    } else if param_failure(sig, 1) is Some {
        Some((Role::Projection, param_failure(sig, 1)->0))
    } else if canonical_name(param_type(sig, 0)) is None {
        Some((Role::Event, Failure::NoTypeIdentifier))
    } else {
        None
    }
}

/// The first structural failure of `sig` as a command handler.
pub open spec fn command_failure(sig: FunctionSignature) -> Option<(Role, Failure)> {
    if param_failure(sig, 0) is Some {
        Some((Role::Command, param_failure(sig, 0)->0))
    } else if param_failure(sig, 1) is Some {
        Some((Role::Context, param_failure(sig, 1)->0))
    } else if inner_element(param_type(sig, 1)) is None {
        Some((Role::Context, Failure::NotReference))
    } else if canonical_name(param_type(sig, 0)) is None {
        Some((Role::Command, Failure::NoTypeIdentifier))
    } else if sig.output is None {
        Some((Role::Result, Failure::MissingOutputType))
    } else if return_failure(sig.output->0) is Some {
        Some((Role::Result, return_failure(sig.output->0)->0))
    } else {
        None
    }
}

/// The registry key: the canonical name of the first parameter's type.
pub open spec fn registry_key(sig: FunctionSignature) -> Seq<char> {
    canonical_name(param_type(sig, 0))->0
}

/// The source text of the type parameter `i` refers to.
pub open spec fn target_text(sig: FunctionSignature, i: int) -> Seq<char> {
    target(param_type(sig, i)).text_of()
}

pub open spec fn event_registry_type(proj: Seq<char>) -> Seq<char> {
    proj + ",Option<"@ + proj + ">"@
}

pub open spec fn sourcing_registry_type(proj: Seq<char>) -> Seq<char> {
    proj + ","@ + proj
}

pub open spec fn command_registry_type(ctx: Seq<char>) -> Seq<char> {
    shared_context(ctx) + ",::dendrite::axon_utils::SerializedObject"@
}

/// The declarations of an event handler: the registry alias, the
/// asynchronous capability implementation, the registration function (under
/// the handler's own name) and its dispatch helper.
pub open spec fn event_declarations(f: HandlerFn) -> Seq<Seq<char>> {
    let sig = f.sig;
    let n = sig.name@;
    let key = registry_key(sig);
    let ev = target_text(sig, 0);
    let proj = target_text(sig, 1);
    let helper = synth_ident(n, "_helper"@);
    seq![
        use_alias_decl(registry_alias_path(), synth_ident(n, "_registry_type"@)),
        async_apply_decl(ev, proj, param_name(sig, 0), param_name(sig, 1), key, f.body@),
        registration_decl(n, event_registry_type(proj), "insert"@, key, ev, helper, "Box::from(c), p"@),
        event_helper_decl(helper),
    ]
}

/// The declarations of an event-sourcing handler: the two aliases, the
/// synchronous capability implementation, the registration function and its
/// dispatch helper.
pub open spec fn sourcing_declarations(f: HandlerFn) -> Seq<Seq<char>> {
    let sig = f.sig;
    let n = sig.name@;
    let key = registry_key(sig);
    let ev = target_text(sig, 0);
    let proj = target_text(sig, 1);
    let cap = synth_ident(n, "_applicable_to"@);
    let helper = synth_ident(n, "_helper"@);
    seq![
        use_alias_decl(registry_alias_path(), synth_ident(n, "_registry_type"@)),
        use_alias_decl(applicable_alias_path(), cap),
        sync_apply_decl(cap, ev, proj, param_name(sig, 0), param_name(sig, 1), key, f.body@),
        registration_decl(
            n,
            sourcing_registry_type(proj),
            "insert_with_output"@,
            key,
            ev,
            helper,
            "Box::from(c), p"@,
        ),
        sourcing_helper_decl(helper),
    ]
}

/// The payload tag of a command handler: the canonical name inside its
/// two-level wrapper return type.
pub open spec fn command_tag(sig: FunctionSignature) -> Seq<char> {
    nested_return_name(sig.output->0)->0
}

/// The declarations of a command handler: the registry alias, the
/// registration function and the implementation function holding the body.
pub open spec fn command_declarations(f: HandlerFn) -> Seq<Seq<char>> {
    let sig = f.sig;
    let n = sig.name@;
    let key = registry_key(sig);
    let cmd = target_text(sig, 0);
    let ctx = inner_element(param_type(sig, 1))->0.text_of();
    let imp = synth_ident(n, "_impl"@);
    seq![
        use_alias_decl(registry_alias_path(), synth_ident(n, "_registry_type"@)),
        registration_decl(n, command_registry_type(ctx), "insert_with_output"@, key, cmd, imp, "c, p"@),
        command_impl_decl(
            imp,
            param_name(sig, 0),
            cmd,
            param_name(sig, 1),
            ctx,
            key,
            sig.output->0.text_of(),
            command_tag(sig),
            f.body@,
        ),
    ]
}

/// Runs the event-handler strategy on `f`.
pub fn impl_event_handler(f: &HandlerFn) -> (r: Result<GeneratedBundle, ExtractError>)
    ensures
        match r {
            Ok(b) => event_failure(f.sig) is None && b.key@ == registry_key(f.sig)
                && b.payload_tag is None && b.decl_views() == event_declarations(*f),
            Err(e) => event_failure(f.sig) == Some((e.role, e.failure)) && e.handler@
                == f.sig.name@,
        },
{
    let sig = &f.sig;
    let (ev_arg, ev_ty) = split_argument(sig, 0, Role::Event)?;
    let (proj_arg, proj_ty) = split_argument(sig, 1, Role::QueryModel)?;
    let key = get_type_ident(ev_ty, &sig.name, Role::Event)?;
    let ev = target_type(ev_ty).text();
    let proj = target_type(proj_ty).text();
    let n = sig.name.as_str();
    let alias = synthesize_ident(n, "_registry_type");
    let helper = synthesize_ident(n, "_helper");
    let mut registry = String::from_str(proj.as_str());
    registry.append(",Option<");
    registry.append(proj.as_str());
    registry.append(">");
    let mut declarations: Vec<String> = Vec::new();
    declarations.push(use_alias("::dendrite::axon_utils::HandlerRegistry", alias.as_str()));
    declarations.push(
        async_apply(
            ev.as_str(),
            proj.as_str(),
            ev_arg.as_str(),
            proj_arg.as_str(),
            key.as_str(),
            f.body.as_str(),
        ),
    );
    declarations.push(
        registration(
            n,
            registry.as_str(),
            "insert",
            key.as_str(),
            ev.as_str(),
            helper.as_str(),
            "Box::from(c), p",
        ),
    );
    declarations.push(event_helper(helper.as_str()));
    let b = GeneratedBundle { key: key.clone(), payload_tag: None, declarations };
    assert(b.decl_views() =~= event_declarations(*f));
    Ok(b)
}

/// Runs the event-sourcing-handler strategy on `f`.
pub fn impl_event_sourcing_handler(f: &HandlerFn) -> (r: Result<GeneratedBundle, ExtractError>)
    ensures
        match r {
            Ok(b) => sourcing_failure(f.sig) is None && b.key@ == registry_key(f.sig)
                && b.payload_tag is None && b.decl_views() == sourcing_declarations(*f),
            Err(e) => sourcing_failure(f.sig) == Some((e.role, e.failure)) && e.handler@
                == f.sig.name@,
        },
{
    let sig = &f.sig;
    let (ev_arg, ev_ty) = split_argument(sig, 0, Role::Event)?;
    let (proj_arg, proj_ty) = split_argument(sig, 1, Role::Projection)?;
    let key = get_type_ident(ev_ty, &sig.name, Role::Event)?;
    let ev = target_type(ev_ty).text();
    let proj = target_type(proj_ty).text();
    let n = sig.name.as_str();
    let alias = synthesize_ident(n, "_registry_type");
    let cap = synthesize_ident(n, "_applicable_to");
    let helper = synthesize_ident(n, "_helper");
    let mut registry = String::from_str(proj.as_str());
    registry.append(",");
    registry.append(proj.as_str());
    let mut declarations: Vec<String> = Vec::new();
    declarations.push(use_alias("::dendrite::axon_utils::HandlerRegistry", alias.as_str()));
    declarations.push(use_alias("::dendrite::axon_utils::ApplicableTo", cap.as_str()));
    declarations.push(
        sync_apply(
            cap.as_str(),
            ev.as_str(),
            proj.as_str(),
            ev_arg.as_str(),
            proj_arg.as_str(),
            key.as_str(),
            f.body.as_str(),
        ),
    );
    declarations.push(
        registration(
            n,
            registry.as_str(),
            "insert_with_output",
            key.as_str(),
            ev.as_str(),
            helper.as_str(),
            "Box::from(c), p",
        ),
    );
    declarations.push(sourcing_helper(helper.as_str()));
    let b = GeneratedBundle { key: key.clone(), payload_tag: None, declarations };
    assert(b.decl_views() =~= sourcing_declarations(*f));
    Ok(b)
}

/// Runs the command-handler strategy on `f`.
pub fn impl_command_handler(f: &HandlerFn) -> (r: Result<GeneratedBundle, ExtractError>)
    ensures
        match r {
            Ok(b) => command_failure(f.sig) is None && b.key@ == registry_key(f.sig)
                && b.payload_tag is Some && b.payload_tag->0@ == command_tag(f.sig)
                && b.decl_views() == command_declarations(*f),
            Err(e) => command_failure(f.sig) == Some((e.role, e.failure)) && e.handler@
                == f.sig.name@,
        },
{
    let sig = &f.sig;
    let (cmd_arg, cmd_ty) = split_argument(sig, 0, Role::Command)?;
    let (ctx_arg, ctx_ty) = split_argument(sig, 1, Role::Context)?;
    let ctx_elem = get_elem_type_argument(ctx_ty, &sig.name, Role::Context)?;
    let key = get_type_ident(cmd_ty, &sig.name, Role::Command)?;
    let output = get_output_type(sig, Role::Result)?;
    let tag = get_return_type_ident(output, &sig.name, Role::Result)?;
    let cmd = target_type(cmd_ty).text();
    let ctx = ctx_elem.text();
    let n = sig.name.as_str();
    let alias = synthesize_ident(n, "_registry_type");
    let imp = synthesize_ident(n, "_impl");
    let mut registry = shared_context_type(ctx.as_str());
    registry.append(",::dendrite::axon_utils::SerializedObject");
    let mut declarations: Vec<String> = Vec::new();
    declarations.push(use_alias("::dendrite::axon_utils::HandlerRegistry", alias.as_str()));
    declarations.push(
        registration(
            n,
            registry.as_str(),
            "insert_with_output",
            key.as_str(),
            cmd.as_str(),
            imp.as_str(),
            "c, p",
        ),
    );
    declarations.push(
        command_impl(
            imp.as_str(),
            cmd_arg.as_str(),
            cmd.as_str(),
            ctx_arg.as_str(),
            ctx.as_str(),
            key.as_str(),
            output.text().as_str(),
            tag.as_str(),
            f.body.as_str(),
        ),
    );
    let b = GeneratedBundle { key: key.clone(), payload_tag: Some(tag.clone()), declarations };
    assert(b.decl_views() =~= command_declarations(*f));
    Ok(b)
}

} // verus!
