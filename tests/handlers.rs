use handler_macros::emit::{command_handler, emit, event_handler, event_sourcing_handler, transform};
use handler_macros::error::{ExtractError, Failure, Role};
use handler_macros::model::{
    FnParam, FunctionSignature, GenericArg, HandlerFn, HandlerKind, PathSegment, Pattern, TypeExpr,
};
use handler_macros::resolve::{canonical_type_name, nested_return_type_name, target_type};
use handler_macros::strategy::{impl_command_handler, impl_event_handler, impl_event_sourcing_handler};

fn path(text: &str, idents: &[&str], args: Vec<GenericArg>) -> TypeExpr {
    let mut segments = idents
        .iter()
        .map(|s| PathSegment { ident: s.to_string(), args: Vec::new() })
        .collect::<Vec<_>>();
    let n = segments.len();
    segments[n - 1].args = args;
    TypeExpr::Path { text: text.to_string(), segments }
}

fn named(name: &str) -> TypeExpr {
    path(name, &[name], Vec::new())
}

fn wrapper(name: &str, inner: TypeExpr) -> TypeExpr {
    let text = format!("{}<{}>", name, type_text(&inner));
    path(&text, &[name], vec![GenericArg::Type(inner)])
}

fn type_text(t: &TypeExpr) -> String {
    t.text().clone()
}

fn reference(mutable: bool, elem: TypeExpr) -> TypeExpr {
    let text = format!("&{}{}", if mutable { "mut " } else { "" }, type_text(&elem));
    TypeExpr::Reference { text, mutable, elem: Box::new(elem) }
}

fn param(name: &str, ty: TypeExpr) -> FnParam {
    FnParam::Typed { pat: Pattern::Ident(name.to_string()), ty }
}

fn handler(name: &str, params: Vec<FnParam>, output: Option<TypeExpr>, body: &str) -> HandlerFn {
    HandlerFn {
        sig: FunctionSignature { name: name.to_string(), params, output },
        body: body.to_string(),
    }
}

fn order_event_handler() -> HandlerFn {
    handler(
        "handle",
        vec![
            param("evt", reference(false, named("OrderPlaced"))),
            param("model", reference(true, named("OrderModel"))),
        ],
        None,
        "{ model.total += evt.amount }",
    )
}

fn order_command_handler(output: Option<TypeExpr>) -> HandlerFn {
    handler(
        "handle",
        vec![
            param("cmd", named("PlaceOrder")),
            param("ctx", reference(true, named("OrderAggregate"))),
        ],
        output,
        "{ Ok(Some(OrderPlaced { amount: cmd.amount })) }",
    )
}

fn order_sourcing_handler() -> HandlerFn {
    handler(
        "apply",
        vec![
            param("evt", reference(false, named("OrderPlaced"))),
            param("state", reference(true, named("OrderState"))),
        ],
        None,
        "{ state.total += evt.amount }",
    )
}

fn expect_err(r: Result<String, ExtractError>) -> ExtractError {
    match r {
        Ok(s) => panic!("unexpected success: {}", s),
        Err(e) => e,
    }
}

#[test]
fn event_handler_scenario() {
    let f = order_event_handler();
    let b = impl_event_handler(&f).unwrap();
    assert_eq!(b.key, "OrderPlaced");
    assert!(b.payload_tag.is_none());
    assert_eq!(b.declarations.len(), 4);
    assert_eq!(
        b.declarations[0],
        "use ::dendrite::axon_utils::HandlerRegistry as handle_registry_type;"
    );
    assert_eq!(
        b.declarations[1],
        "#[tonic::async_trait]\nimpl AsyncApplicableTo<OrderModel> for OrderPlaced {\n    async fn apply_to(self: &Self, model: &mut OrderModel) -> Result<()> {\n        let evt = self;\n        debug!(\"Event type: {:?}\", \"OrderPlaced\");\n        { model.total += evt.amount }\n    }\n\n    fn box_clone(self: &Self) -> Box<dyn AsyncApplicableTo<OrderModel>> {\n        Box::from(OrderPlaced::clone(self))\n    }\n}"
    );
    assert_eq!(
        b.declarations[2],
        "fn handle(registry: &mut ::dendrite::axon_utils::TheHandlerRegistry<OrderModel,Option<OrderModel>>) -> Result<()> {\n    registry.insert(\n        \"OrderPlaced\",\n        &OrderPlaced::decode,\n        &(|c,p| Box::pin(handle_helper(Box::from(c), p)))\n    )\n}"
    );
    assert!(b.declarations[3].starts_with("async fn handle_helper<T: AsyncApplicableTo<P>,P: Clone>"));
    assert!(b.declarations[3].contains("event.apply_to(&mut p).await?;\n    Ok(())"));
}

#[test]
fn event_handler_emits_declarations_in_order() {
    let f = order_event_handler();
    let b = impl_event_handler(&f).unwrap();
    let out = event_handler(&f).unwrap();
    let expected = format!(
        "{}\n{}\n{}\n{}\n",
        b.declarations[0], b.declarations[1], b.declarations[2], b.declarations[3]
    );
    assert_eq!(out, expected);
    assert_eq!(emit(&b), expected);
}

#[test]
fn registration_key_is_terminal_segment_of_qualified_path() {
    let ev = path("crate::events::OrderPlaced", &["crate", "events", "OrderPlaced"], Vec::new());
    let f = handler(
        "on_order",
        vec![param("evt", ev), param("model", named("OrderModel"))],
        None,
        "{}",
    );
    let b = impl_event_handler(&f).unwrap();
    assert_eq!(b.key, "OrderPlaced");
    assert!(b.declarations[2].contains("registry.insert(\n        \"OrderPlaced\","));
    assert!(b.declarations[2].contains("&crate::events::OrderPlaced::decode"));
    assert!(b.declarations[3].starts_with("async fn on_order_helper<"));
}

#[test]
fn command_handler_scenario() {
    let out_ty = wrapper("Result", wrapper("Option", named("OrderPlaced")));
    let f = order_command_handler(Some(out_ty));
    let b = impl_command_handler(&f).unwrap();
    assert_eq!(b.key, "PlaceOrder");
    assert_eq!(b.payload_tag.as_deref(), Some("OrderPlaced"));
    assert_eq!(b.declarations.len(), 3);
    assert_eq!(
        b.declarations[1],
        "fn handle(registry: &mut ::dendrite::axon_utils::TheHandlerRegistry<std::sync::Arc<async_lock::Mutex<OrderAggregate>>,::dendrite::axon_utils::SerializedObject>) -> Result<()> {\n    registry.insert_with_output(\n        \"PlaceOrder\",\n        &PlaceOrder::decode,\n        &(|c,p| Box::pin(handle_impl(c, p)))\n    )\n}"
    );
    let imp = &b.declarations[2];
    assert!(imp.starts_with(
        "async fn handle_impl(cmd: PlaceOrder, ctx: std::sync::Arc<async_lock::Mutex<OrderAggregate>>) -> Result<Option<SerializedObject>> {\n    let mut ctx = ctx.deref().lock().await;\n"
    ));
    assert!(imp.contains(
        "let result : Result<Option<OrderPlaced>> = { Ok(Some(OrderPlaced { amount: cmd.amount })) };"
    ));
    assert!(imp.contains("axon_serialize(\"OrderPlaced\", &r)"));
    assert!(imp.contains("None => Ok(None),"));
}

#[test]
fn event_sourcing_handler_scenario() {
    let f = order_sourcing_handler();
    let b = impl_event_sourcing_handler(&f).unwrap();
    assert_eq!(b.key, "OrderPlaced");
    assert_eq!(b.declarations.len(), 5);
    assert_eq!(
        b.declarations[1],
        "use ::dendrite::axon_utils::ApplicableTo as apply_applicable_to;"
    );
    assert_eq!(
        b.declarations[2],
        "#[tonic::async_trait]\nimpl apply_applicable_to<OrderState> for OrderPlaced {\n    fn apply_to(self: &Self, state: &mut OrderState) -> Result<()> {\n        let evt = self;\n        debug!(\"Event type: {:?}\", \"OrderPlaced\");\n        { state.total += evt.amount };\n        Ok(())\n    }\n\n    fn box_clone(self: &Self) -> Box<dyn apply_applicable_to<OrderState>> {\n        Box::from(OrderPlaced::clone(self))\n    }\n}"
    );
    assert!(b.declarations[3].contains("TheHandlerRegistry<OrderState,OrderState>"));
    assert!(b.declarations[3].contains("registry.insert_with_output(\n        \"OrderPlaced\","));
    assert_eq!(
        b.declarations[4],
        "async fn apply_helper<T: ApplicableTo<P>,P: Clone>(event: Box<T>, projection: P) -> Result<Option<P>> {\n    let mut p = projection.clone();\n    event.apply_to(&mut p)?;\n    Ok(Some(p))\n}"
    );
    assert_eq!(event_sourcing_handler(&f).unwrap(), emit(&b));
}

#[test]
fn command_with_single_wrapper_fails_in_result_role() {
    let f = order_command_handler(Some(wrapper("Result", named("OrderPlaced"))));
    let e = expect_err(command_handler(&f));
    assert_eq!(e.role, Role::Result);
    assert_eq!(e.failure, Failure::NoGenericArgument);
    assert_eq!(e.message(), "Can't get first generic type argument: \"handle\": \"result\"");
}

#[test]
fn command_with_plain_return_type_fails_in_result_role() {
    let f = order_command_handler(Some(named("OrderPlaced")));
    let e = expect_err(command_handler(&f));
    assert_eq!((e.role, e.failure), (Role::Result, Failure::NoGenericArgument));
}

#[test]
fn command_with_unnamed_payload_fails_in_result_role() {
    let payload = TypeExpr::Other { text: "(A, B)".to_string() };
    let f = order_command_handler(Some(wrapper("Result", wrapper("Option", payload))));
    let e = expect_err(command_handler(&f));
    assert_eq!((e.role, e.failure), (Role::Result, Failure::NoReturnTypeIdentifier));
    assert_eq!(e.message(), "Can't get return type identifier: \"handle\": \"result\"");
}

#[test]
fn command_without_return_type_fails() {
    let f = order_command_handler(None);
    let e = expect_err(command_handler(&f));
    assert_eq!((e.role, e.failure), (Role::Result, Failure::MissingOutputType));
    assert_eq!(e.handler, "handle");
}

#[test]
fn command_with_owned_context_fails_in_context_role() {
    let out_ty = wrapper("Result", wrapper("Option", named("OrderPlaced")));
    let f = handler(
        "handle",
        vec![param("cmd", named("PlaceOrder")), param("ctx", named("OrderAggregate"))],
        Some(out_ty),
        "{}",
    );
    let e = expect_err(command_handler(&f));
    assert_eq!((e.role, e.failure), (Role::Context, Failure::NotReference));
    assert_eq!(e.message(), "Can't get element type of reference: \"handle\": \"context\"");
}

#[test]
fn unnamed_event_type_fails_in_event_role() {
    let f = handler(
        "handle",
        vec![
            param("evt", TypeExpr::Other { text: "(u8, u8)".to_string() }),
            param("model", named("OrderModel")),
        ],
        None,
        "{}",
    );
    let e = expect_err(event_handler(&f));
    assert_eq!((e.role, e.failure), (Role::Event, Failure::NoTypeIdentifier));
    assert_eq!(e.message(), "Can't get type identifier: \"handle\": \"event\"");
}

#[test]
fn too_few_parameters_fail_every_strategy() {
    let one = handler("handle", vec![param("evt", named("OrderPlaced"))], None, "{}");
    let none = handler("handle", Vec::new(), None, "{}");
    let e = expect_err(event_handler(&one));
    assert_eq!((e.role, e.failure), (Role::QueryModel, Failure::MissingArgument));
    let e = expect_err(event_sourcing_handler(&one));
    assert_eq!((e.role, e.failure), (Role::Projection, Failure::MissingArgument));
    let e = expect_err(command_handler(&one));
    assert_eq!((e.role, e.failure), (Role::Context, Failure::MissingArgument));
    let e = expect_err(event_handler(&none));
    assert_eq!((e.role, e.failure), (Role::Event, Failure::MissingArgument));
    let e = expect_err(command_handler(&none));
    assert_eq!((e.role, e.failure), (Role::Command, Failure::MissingArgument));
    assert_eq!(e.message(), "Missing argument: \"handle\": \"command\"");
    assert!(impl_event_handler(&none).is_err());
}

#[test]
fn destructuring_first_parameter_fails_with_handler_and_role() {
    let f = handler(
        "handle",
        vec![
            FnParam::Typed { pat: Pattern::Other, ty: named("OrderPlaced") },
            param("model", named("OrderModel")),
        ],
        None,
        "{}",
    );
    let e = expect_err(event_handler(&f));
    assert_eq!((e.role, e.failure), (Role::Event, Failure::NotSimpleBinding));
    assert_eq!(e.message(), "Can't parse argument: \"handle\": \"event\"");
    let e = expect_err(command_handler(&f));
    assert_eq!((e.role, e.failure), (Role::Command, Failure::NotSimpleBinding));
    assert_eq!(e.message(), "Can't parse argument: \"handle\": \"command\"");
    let e = expect_err(event_sourcing_handler(&f));
    assert_eq!((e.role, e.failure), (Role::Event, Failure::NotSimpleBinding));
}

#[test]
fn receiver_parameter_is_not_a_simple_binding() {
    let f = handler("handle", vec![FnParam::Receiver, param("model", named("M"))], None, "{}");
    let e = expect_err(transform(HandlerKind::EventHandler, &f));
    assert_eq!((e.role, e.failure), (Role::Event, Failure::NotSimpleBinding));
}

#[test]
fn nested_return_type_unwraps_two_levels() {
    let payload = path("events::OrderPlaced", &["events", "OrderPlaced"], Vec::new());
    let t = wrapper("Result", wrapper("Option", payload));
    assert_eq!(nested_return_type_name(&t).map(|s| s.as_str()), Some("OrderPlaced"));
    let one = wrapper("Option", named("X"));
    assert!(nested_return_type_name(&one).is_none());
    let lifetime_first = path("Cow<'a, X>", &["Cow"], vec![GenericArg::Other]);
    assert!(nested_return_type_name(&wrapper("Result", lifetime_first)).is_none());
}

#[test]
fn canonical_name_looks_through_references() {
    let t = reference(true, path("a::b::Model", &["a", "b", "Model"], Vec::new()));
    assert_eq!(canonical_type_name(&t).map(|s| s.as_str()), Some("Model"));
    assert_eq!(target_type(&t).text(), "a::b::Model");
    let empty = TypeExpr::Path { text: String::new(), segments: Vec::new() };
    assert!(canonical_type_name(&empty).is_none());
}

#[test]
fn transform_dispatches_on_kind() {
    let f = order_sourcing_handler();
    assert_eq!(
        transform(HandlerKind::EventSourcingHandler, &f).unwrap(),
        event_sourcing_handler(&f).unwrap()
    );
    assert_eq!(transform(HandlerKind::EventHandler, &f).unwrap(), event_handler(&f).unwrap());
    let e = expect_err(transform(HandlerKind::CommandHandler, &f));
    assert_eq!((e.role, e.failure), (Role::Result, Failure::MissingOutputType));
}

#[test]
fn doubly_referenced_event_type_has_no_type_identifier() {
    let ev = reference(false, reference(false, named("OrderPlaced")));
    assert!(canonical_type_name(&ev).is_none());
    let f = handler(
        "handle",
        vec![param("evt", ev), param("model", reference(true, named("OrderModel")))],
        None,
        "{}",
    );
    let e = expect_err(event_handler(&f));
    assert_eq!((e.role, e.failure), (Role::Event, Failure::NoTypeIdentifier));
    assert_eq!(e.message(), "Can't get type identifier: \"handle\": \"event\"");
    let e = expect_err(event_sourcing_handler(&f));
    assert_eq!((e.role, e.failure), (Role::Event, Failure::NoTypeIdentifier));
}

#[test]
fn doubly_referenced_command_type_has_no_type_identifier() {
    let out_ty = wrapper("Result", wrapper("Option", named("OrderPlaced")));
    let f = handler(
        "handle",
        vec![
            param("cmd", reference(false, reference(false, named("PlaceOrder")))),
            param("ctx", reference(true, named("OrderAggregate"))),
        ],
        Some(out_ty),
        "{}",
    );
    let e = expect_err(command_handler(&f));
    assert_eq!((e.role, e.failure), (Role::Command, Failure::NoTypeIdentifier));
}
