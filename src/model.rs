use vstd::prelude::*;

verus! {

/// A type reference as written in a handler signature. Every variant keeps
/// the source text of the whole type, which is what generated code repeats.
pub enum TypeExpr {
    /// A possibly qualified path such as `a::b::Name<X, Y>`.
    Path { text: String, segments: Vec<PathSegment> },
    /// `&T` or `&mut T`.
    Reference { text: String, mutable: bool, elem: Box<TypeExpr> },
    /// Any other shape (tuple, function pointer, slice, ...).
    Other { text: String },
}

/// One segment of a path, with the generic arguments written in angle
/// brackets after it (empty when there are none).
pub struct PathSegment {
    pub ident: String,
    pub args: Vec<GenericArg>,
}

/// One generic argument of a path segment.
pub enum GenericArg {
    Type(TypeExpr),
    /// A lifetime, a constant or an associated-type binding.
    Other,
}

/// The binding pattern of a parameter.
pub enum Pattern {
    /// A plain named binding (`x`, `mut x`, `ref x`).
    Ident(String),
    /// Any destructuring or ignored pattern (`(a, b)`, `_`, ...).
    Other,
}

/// One declared parameter of a function.
pub enum FnParam {
    Typed { pat: Pattern, ty: TypeExpr },
    /// A `self` receiver.
    Receiver,
}

/// The parsed signature of an annotated handler.
pub struct FunctionSignature {
    pub name: String,
    pub params: Vec<FnParam>,
    pub output: Option<TypeExpr>,
}

/// An annotated handler function: its signature and its body, which is
/// carried through as opaque source text.
pub struct HandlerFn {
    pub sig: FunctionSignature,
    pub body: String,
}

/// The three annotations a handler may carry.
#[derive(Clone, Copy, Debug, PartialEq, Eq, Structural)]
pub enum HandlerKind {
    EventHandler,
    CommandHandler,
    EventSourcingHandler,
}

impl TypeExpr {
    /// The source text of the whole type.
    pub open spec fn text_of(self) -> Seq<char> {
        match self {
            TypeExpr::Path { text, .. } => text@,
            TypeExpr::Reference { text, .. } => text@,
            TypeExpr::Other { text } => text@,
        }
    }

    pub fn text(&self) -> (r: &String)
        ensures
            r@ == self.text_of(),
    {
        match self {
            TypeExpr::Path { text, .. } => text,
            TypeExpr::Reference { text, .. } => text,
            TypeExpr::Other { text } => text,
        }
    }
}

} // verus!
