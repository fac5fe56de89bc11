use vstd::prelude::*;

verus! {

/// A helper identifier derived from a handler's name: the name followed by
/// a suffix that no handler name of the surrounding code is expected to end in.
pub open spec fn synth_ident(name: Seq<char>, suffix: Seq<char>) -> Seq<char> {
    name + suffix
}

/// `s` as a string literal. Type names are identifiers, so no escaping is needed.
pub open spec fn quoted(s: Seq<char>) -> Seq<char> {
    "\""@ + s + "\""@
}

pub fn synthesize_ident(name: &str, suffix: &str) -> (r: String)
    ensures
        r@ == synth_ident(name@, suffix@),
{
    let mut s = String::from_str(name);
    s.append(suffix);
    s
}

pub fn quote_literal(s: &str) -> (r: String)
    ensures
        r@ == quoted(s@),
{
    let mut q = String::from_str("\"");
    q.append(s);
    q.append("\"");
    q
}

/// `use <path> as <alias>;`
pub open spec fn use_alias_decl(path: Seq<char>, alias: Seq<char>) -> Seq<char> {
    "use "@ + path + " as "@ + alias + ";"@
}

pub fn use_alias(path: &str, alias: &str) -> (r: String)
    ensures
        r@ == use_alias_decl(path@, alias@),
{
    let mut s = String::from_str("use ");
    s.append(path);
    s.append(" as ");
    s.append(alias);
    s.append(";");
    s
}

/// The `box_clone` operation shared by both capability implementations:
/// `cap` is the capability trait, `proj` the projection type, `ev` the event type.
pub open spec fn box_clone_decl(cap: Seq<char>, proj: Seq<char>, ev: Seq<char>) -> Seq<char> {
    "    fn box_clone(self: &Self) -> Box<dyn "@ + cap + "<"@ + proj + ">> {\n        Box::from("@
        + ev + "::clone(self))\n    }\n"@
}

pub fn box_clone(cap: &str, proj: &str, ev: &str) -> (r: String)
    ensures
        r@ == box_clone_decl(cap@, proj@, ev@),
{
    let mut s = String::from_str("    fn box_clone(self: &Self) -> Box<dyn ");
    s.append(cap);
    s.append("<");
    s.append(proj);
    s.append(">> {\n        Box::from(");
    s.append(ev);
    s.append("::clone(self))\n    }\n");
    s
}

/// The asynchronous capability implementation of an event handler: the
/// event is bound to `self` and the body runs, free to await.
pub open spec fn async_apply_decl(
    ev: Seq<char>,
    proj: Seq<char>,
    ev_arg: Seq<char>,
    proj_arg: Seq<char>,
    key: Seq<char>,
    body: Seq<char>,
) -> Seq<char> {
    "#[tonic::async_trait]\nimpl AsyncApplicableTo<"@ + proj + "> for "@ + ev
        + " {\n    async fn apply_to(self: &Self, "@ + proj_arg + ": &mut "@ + proj
        + ") -> Result<()> {\n        let "@ + ev_arg
        + " = self;\n        debug!(\"Event type: {:?}\", "@ + quoted(key) + ");\n        "@ + body
        + "\n    }\n\n"@ + box_clone_decl("AsyncApplicableTo"@, proj, ev) + "}"@
}

pub fn async_apply(
    ev: &str,
    proj: &str,
    ev_arg: &str,
    proj_arg: &str,
    key: &str,
    body: &str,
) -> (r: String)
    ensures
        r@ == async_apply_decl(ev@, proj@, ev_arg@, proj_arg@, key@, body@),
{
    let mut s = String::from_str("#[tonic::async_trait]\nimpl AsyncApplicableTo<");
    s.append(proj);
    s.append("> for ");
    s.append(ev);
    s.append(" {\n    async fn apply_to(self: &Self, ");
    s.append(proj_arg);
    s.append(": &mut ");
    s.append(proj);
    s.append(") -> Result<()> {\n        let ");
    s.append(ev_arg);
    s.append(" = self;\n        debug!(\"Event type: {:?}\", ");
    let q = quote_literal(key);
    s.append(q.as_str());
    s.append(");\n        ");
    s.append(body);
    s.append("\n    }\n\n");
    let c = box_clone("AsyncApplicableTo", proj, ev);
    s.append(c.as_str());
    s.append("}");
    s
}

/// The synchronous capability implementation of an event-sourcing handler:
/// the body runs against the projection and the operation always succeeds.
pub open spec fn sync_apply_decl(
    cap: Seq<char>,
    ev: Seq<char>,
    proj: Seq<char>,
    ev_arg: Seq<char>,
    proj_arg: Seq<char>,
    key: Seq<char>,
    body: Seq<char>,
) -> Seq<char> {
    "#[tonic::async_trait]\nimpl "@ + cap + "<"@ + proj + "> for "@ + ev
        + " {\n    fn apply_to(self: &Self, "@ + proj_arg + ": &mut "@ + proj
        + ") -> Result<()> {\n        let "@ + ev_arg
        + " = self;\n        debug!(\"Event type: {:?}\", "@ + quoted(key) + ");\n        "@ + body
        + ";\n        Ok(())\n    }\n\n"@ + box_clone_decl(cap, proj, ev) + "}"@
}

pub fn sync_apply(
    cap: &str,
    ev: &str,
    proj: &str,
    ev_arg: &str,
    proj_arg: &str,
    key: &str,
    body: &str,
) -> (r: String)
    ensures
        r@ == sync_apply_decl(cap@, ev@, proj@, ev_arg@, proj_arg@, key@, body@),
{
    let mut s = String::from_str("#[tonic::async_trait]\nimpl ");
    s.append(cap);
    s.append("<");
    s.append(proj);
    s.append("> for ");
    s.append(ev);
    s.append(" {\n    fn apply_to(self: &Self, ");
    s.append(proj_arg);
    s.append(": &mut ");
    s.append(proj);
    s.append(") -> Result<()> {\n        let ");
    s.append(ev_arg);
    s.append(" = self;\n        debug!(\"Event type: {:?}\", ");
    let q = quote_literal(key);
    s.append(q.as_str());
    s.append(");\n        ");
    s.append(body);
    s.append(";\n        Ok(())\n    }\n\n");
    let c = box_clone(cap, proj, ev);
    s.append(c.as_str());
    s.append("}");
    s
}

/// A registration function named `name`: it inserts, under `key`, the
/// decoder of type `ty` and a closure that dispatches to `helper`.
/// `registry` is the registry's type, `insert` its insertion method and
/// `args` the arguments handed to the helper.
pub open spec fn registration_decl(
    name: Seq<char>,
    registry: Seq<char>,
    insert: Seq<char>,
    key: Seq<char>,
    ty: Seq<char>,
    helper: Seq<char>,
    args: Seq<char>,
) -> Seq<char> {
    "fn "@ + name + "(registry: &mut ::dendrite::axon_utils::TheHandlerRegistry<"@ + registry
        + ">) -> Result<()> {\n    registry."@ + insert + "(\n        "@ + quoted(key)
        + ",\n        &"@ + ty + "::decode,\n        &(|c,p| Box::pin("@ + helper + "("@ + args
        + ")))\n    )\n}"@
}

pub fn registration(
    name: &str,
    registry: &str,
    insert: &str,
    key: &str,
    ty: &str,
    helper: &str,
    args: &str,
) -> (r: String)
    ensures
        r@ == registration_decl(name@, registry@, insert@, key@, ty@, helper@, args@),
{
    let mut s = String::from_str("fn ");
    s.append(name);
    s.append("(registry: &mut ::dendrite::axon_utils::TheHandlerRegistry<");
    s.append(registry);
    s.append(">) -> Result<()> {\n    registry.");
    s.append(insert);
    s.append("(\n        ");
    let q = quote_literal(key);
    s.append(q.as_str());
    s.append(",\n        &");
    s.append(ty);
    s.append("::decode,\n        &(|c,p| Box::pin(");
    s.append(helper);
    s.append("(");
    s.append(args);
    s.append(")))\n    )\n}");
    s
}

/// The dispatch helper of an event handler: it applies the event to a clone
/// of the projection and reports no payload.
pub open spec fn event_helper_decl(helper: Seq<char>) -> Seq<char> {
    "async fn "@ + helper
        + "<T: AsyncApplicableTo<P>,P: Clone>(event: Box<T>, projection: P) -> Result<()> {\n    let mut p = projection.clone();\n    event.apply_to(&mut p).await?;\n    Ok(())\n}"@
}

pub fn event_helper(helper: &str) -> (r: String)
    ensures
        r@ == event_helper_decl(helper@),
{
    let mut s = String::from_str("async fn ");
    s.append(helper);
    s.append(
        "<T: AsyncApplicableTo<P>,P: Clone>(event: Box<T>, projection: P) -> Result<()> {\n    let mut p = projection.clone();\n    event.apply_to(&mut p).await?;\n    Ok(())\n}",
    );
    s
}

/// The dispatch helper of an event-sourcing handler: it applies the event
/// to a clone of the projection and returns that clone.
pub open spec fn sourcing_helper_decl(helper: Seq<char>) -> Seq<char> {
    "async fn "@ + helper
        + "<T: ApplicableTo<P>,P: Clone>(event: Box<T>, projection: P) -> Result<Option<P>> {\n    let mut p = projection.clone();\n    event.apply_to(&mut p)?;\n    Ok(Some(p))\n}"@
}

pub fn sourcing_helper(helper: &str) -> (r: String)
    ensures
        r@ == sourcing_helper_decl(helper@),
{
    let mut s = String::from_str("async fn ");
    s.append(helper);
    s.append(
        "<T: ApplicableTo<P>,P: Clone>(event: Box<T>, projection: P) -> Result<Option<P>> {\n    let mut p = projection.clone();\n    event.apply_to(&mut p)?;\n    Ok(Some(p))\n}",
    );
    s
}

/// The shared, lock-protected context type of a command handler.
pub open spec fn shared_context(ctx: Seq<char>) -> Seq<char> {
    "std::sync::Arc<async_lock::Mutex<"@ + ctx + ">>"@
}

pub fn shared_context_type(ctx: &str) -> (r: String)
    ensures
        r@ == shared_context(ctx@),
{
    let mut s = String::from_str("std::sync::Arc<async_lock::Mutex<");
    s.append(ctx);
    s.append(">>");
    s
}

/// The implementation function of a command handler: it holds the context's
/// lock for the whole body, and serializes a present payload under `tag`.
pub open spec fn command_impl_decl(
    name: Seq<char>,
    cmd_arg: Seq<char>,
    cmd: Seq<char>,
    ctx_arg: Seq<char>,
    ctx: Seq<char>,
    key: Seq<char>,
    output: Seq<char>,
    tag: Seq<char>,
    body: Seq<char>,
) -> Seq<char> {
    "async fn "@ + name + "("@ + cmd_arg + ": "@ + cmd + ", "@ + ctx_arg + ": "@ + shared_context(ctx)
        + ") -> Result<Option<SerializedObject>> {\n    let mut "@ + ctx_arg + " = "@ + ctx_arg
        + ".deref().lock().await;\n    debug!(\"Event type: {:?}\", "@ + quoted(key)
        + ");\n    let result : "@ + output + " = "@ + body
        + ";\n    let result: Option<Result<SerializedObject>> = result?.map(|r| ::dendrite::axon_utils::axon_serialize("@
        + quoted(tag)
        + ", &r));\n    match result {\n        Some(Ok(serialized)) => Ok(Some(serialized)),\n        Some(Err(e)) => Err(e),\n        None => Ok(None),\n    }\n}"@
}

pub fn command_impl(
    name: &str,
    cmd_arg: &str,
    cmd: &str,
    ctx_arg: &str,
    ctx: &str,
    key: &str,
    output: &str,
    tag: &str,
    body: &str,
) -> (r: String)
    ensures
        r@ == command_impl_decl(
            name@,
            cmd_arg@,
            cmd@,
            ctx_arg@,
            ctx@,
            key@,
            output@,
            tag@,
            body@,
        ),
{
    let mut s = String::from_str("async fn ");
    s.append(name);
    s.append("(");
    s.append(cmd_arg);
    s.append(": ");
    s.append(cmd);
    s.append(", ");
    s.append(ctx_arg);
    s.append(": ");
    let shared = shared_context_type(ctx);
    s.append(shared.as_str());
    s.append(") -> Result<Option<SerializedObject>> {\n    let mut ");
    s.append(ctx_arg);
    s.append(" = ");
    s.append(ctx_arg);
    s.append(".deref().lock().await;\n    debug!(\"Event type: {:?}\", ");
    let qk = quote_literal(key);
    s.append(qk.as_str());
    s.append(");\n    let result : ");
    s.append(output);
    s.append(" = ");
    s.append(body);
    s.append(
        ";\n    let result: Option<Result<SerializedObject>> = result?.map(|r| ::dendrite::axon_utils::axon_serialize(",
    );
    let qt = quote_literal(tag);
    s.append(qt.as_str());
    s.append(
        ", &r));\n    match result {\n        Some(Ok(serialized)) => Ok(Some(serialized)),\n        Some(Err(e)) => Err(e),\n        None => Ok(None),\n    }\n}",
    );
    s
}

} // verus!
