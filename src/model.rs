//! The annotated declaration that generation reads, and the errors that end
//! a generation pass.
use vstd::prelude::*;

verus! {

/// A literal value paired with a name in an attribute.
pub enum Lit {
    /// A string literal, by its contents.
    Str(String),
    /// Any other kind of literal, by its source text.
    Other(String),
}

/// One attribute entry: a bare word, a list of nested entries under a name,
/// or a name paired with a literal.
pub enum MetaItem {
    Word(String),
    List(String, Vec<NestedMetaItem>),
    NameValue(String, Lit),
}

/// An entry nested inside a list attribute.
pub enum NestedMetaItem {
    MetaItem(MetaItem),
    Literal(Lit),
}

/// One variant of the declared enumeration, with its own attributes.
pub struct Variant {
    pub name: String,
    pub attrs: Vec<MetaItem>,
}

/// The shape of the declaration.
pub enum Body {
    Enum(Vec<Variant>),
    Struct,
}

/// The annotated declaration that a generation pass consumes.
pub struct Declaration {
    pub name: String,
    pub attrs: Vec<MetaItem>,
    pub body: Body,
}

/// Why a generation pass was aborted.
pub enum WrapError {
    /// A required attribute `key` is absent from the attributes of `owner`.
    MissingAttribute { owner: String, key: String },
    /// An attribute under the recognized namespace on `owner` is malformed
    /// while looking up `key`.
    AttributeShape { owner: String, key: String },
    /// The declaration is not an enumeration.
    UnsupportedDeclarationShape,
}

/// The mathematical value of a `WrapError`.
pub enum WrapErrorView {
    MissingAttribute { owner: Seq<char>, key: Seq<char> },
    AttributeShape { owner: Seq<char>, key: Seq<char> },
    UnsupportedDeclarationShape,
}

impl View for WrapError {
    type V = WrapErrorView;

    open spec fn view(&self) -> WrapErrorView {
        match self {
            WrapError::MissingAttribute { owner, key } => WrapErrorView::MissingAttribute {
                owner: owner@,
                key: key@,
            },
            WrapError::AttributeShape { owner, key } => WrapErrorView::AttributeShape {
                owner: owner@,
                key: key@,
            },
            WrapError::UnsupportedDeclarationShape => WrapErrorView::UnsupportedDeclarationShape,
        }
    }
}

} // verus!

verus! {

/// The mathematical value of a `Result` whose both sides have views.
pub open spec fn result_view<T: View, E: View>(r: Result<T, E>) -> Result<T::V, E::V> {
    match r {
        Ok(t) => Ok(t@),
        Err(e) => Err(e@),
    }
}

} // verus!

verus! {

/// The mathematical value of an optional `String`.
pub open spec fn opt_text(o: Option<String>) -> Option<Seq<char>> {
    match o {
        Some(s) => Some(s@),
        None => None,
    }
}

} // verus!
