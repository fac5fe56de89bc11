use vstd::prelude::*;

verus! {

/// The role a parameter or type plays in a handler, named in diagnostics.
#[derive(Clone, Copy, Debug, PartialEq, Eq, Structural)]
pub enum Role {
    Event,
    QueryModel,
    Command,
    Context,
    Projection,
    Result,
}

/// What went wrong while analysing a handler signature.
#[derive(Clone, Copy, Debug, PartialEq, Eq, Structural)]
pub enum Failure {
    /// The signature has no parameter in this position.
    MissingArgument,
    /// The parameter is a receiver or a destructuring pattern.
    NotSimpleBinding,
    /// The type is not a reference.
    NotReference,
    /// The type has no canonical name.
    NoTypeIdentifier,
    /// The type has no first generic type argument.
    NoGenericArgument,
    /// The innermost wrapped type of the return type has no canonical name.
    NoReturnTypeIdentifier,
    /// The function declares no return type.
    MissingOutputType,
}

/// A structural extraction failure: fatal, reported at build time against
/// the handler it names.
#[derive(Debug)]
pub struct ExtractError {
    pub handler: String,
    pub role: Role,
    pub failure: Failure,
}

pub open spec fn role_label(r: Role) -> Seq<char> {
    match r {
        Role::Event => "event"@,
        Role::QueryModel => "query model"@,
        Role::Command => "command"@,
        Role::Context => "context"@,
        Role::Projection => "projection"@,
        Role::Result => "result"@,
    }
}

pub open spec fn failure_text(f: Failure) -> Seq<char> {
    match f {
        Failure::MissingArgument => "Missing argument: "@,
        Failure::NotSimpleBinding => "Can't parse argument: "@,
        Failure::NotReference => "Can't get element type of reference: "@,
        Failure::NoTypeIdentifier => "Can't get type identifier: "@,
        Failure::NoGenericArgument => "Can't get first generic type argument: "@,
        Failure::NoReturnTypeIdentifier => "Can't get return type identifier: "@,
        Failure::MissingOutputType => "Missing output type: "@,
    }
}

/// The diagnostic: the failure, then the handler's name and the role, each
/// in double quotes.
pub open spec fn message_of(handler: Seq<char>, role: Role, failure: Failure) -> Seq<char> {
    failure_text(failure) + "\""@ + handler + "\": \""@ + role_label(role) + "\""@
}

impl Role {
    pub fn label(&self) -> (r: &'static str)
        ensures
            r@ == role_label(*self),
    {
        match self {
            Role::Event => "event",
            Role::QueryModel => "query model",
            Role::Command => "command",
            Role::Context => "context",
            Role::Projection => "projection",
            Role::Result => "result",
        }
    }
}

impl Failure {
    pub fn text(&self) -> (r: &'static str)
        ensures
            r@ == failure_text(*self),
    {
        match self {
            Failure::MissingArgument => "Missing argument: ",
            Failure::NotSimpleBinding => "Can't parse argument: ",
            Failure::NotReference => "Can't get element type of reference: ",
            Failure::NoTypeIdentifier => "Can't get type identifier: ",
            Failure::NoGenericArgument => "Can't get first generic type argument: ",
            Failure::NoReturnTypeIdentifier => "Can't get return type identifier: ",
            Failure::MissingOutputType => "Missing output type: ",
        }
    }
}

impl ExtractError {
    pub fn new(handler: &String, role: Role, failure: Failure) -> (r: ExtractError)
        ensures
            r.handler@ == handler@,
            r.role == role,
            r.failure == failure,
    {
        ExtractError { handler: handler.clone(), role, failure }
    }

    /// The diagnostic text of this failure, see [`message_of`].
    pub fn message(&self) -> (r: String)
        ensures
            r@ == message_of(self.handler@, self.role, self.failure),
    {
        let mut s = String::from_str(self.failure.text());
        s.append("\"");
        s.append(self.handler.as_str());
        s.append("\": \"");
        s.append(self.role.label());
        s.append("\"");
        s
    }
}

} // verus!
