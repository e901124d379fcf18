//! The error values of the generator core.

use vstd::prelude::*;
use vstd::string::*;

verus! {

/// Why a declaration cannot be resolved against the database yet.
#[derive(Clone, Copy, Debug, PartialEq, Eq, Structural)]
pub enum UnresolvedReason {
    /// A class type names a path that no class declaration of the database has.
    ClassNotFound,
    /// An enum type names a path that no enum declaration of the database has.
    EnumNotFound,
    /// A template parameter occurs in the declaration.
    TemplateParameter,
}

/// Everything that can go wrong inside the core.
#[derive(Clone, Copy, Debug, PartialEq, Eq, Structural)]
pub enum Error {
    /// No conversion rule covers the type, as for a leftover template parameter.
    UnsupportedType,
    /// A type that needs a declarator name was rendered without one.
    MissingName,
    /// A declarator name was given for a type that takes none.
    UnexpectedName,
    /// A declaration mentions something the database does not know yet.
    UnresolvedReference(UnresolvedReason),
    /// The data handed in contradicts itself.
    MalformedInput,
    /// The declared order of the passes cannot be satisfied.
    PipelineOrderingError,
}

impl UnresolvedReason {
    /// What the reason says to a reader.
    pub open spec fn message_text(self) -> Seq<char> {
        match self {
            UnresolvedReason::ClassNotFound => "class not found"@,
            UnresolvedReason::EnumNotFound => "enum not found"@,
            UnresolvedReason::TemplateParameter => "template parameters are not supported"@,
        }
    }

    /// What the reason says to a reader.
    pub fn message(&self) -> (r: String)
        ensures
            r@ == self.message_text(),
    {
        match self {
            UnresolvedReason::ClassNotFound => "class not found".to_owned(),
            UnresolvedReason::EnumNotFound => "enum not found".to_owned(),
            UnresolvedReason::TemplateParameter => "template parameters are not supported".to_owned(),
        }
    }
}

impl Error {
    /// What the error says to a reader.
    pub open spec fn message_text(self) -> Seq<char> {
        match self {
            Error::UnsupportedType => "unsupported type"@,
            Error::MissingName => "a declarator name is missing"@,
            Error::UnexpectedName => "unexpected declarator name"@,
            Error::UnresolvedReference(reason) => "unresolved reference: "@ + reason.message_text(),
            Error::MalformedInput => "malformed input"@,
            Error::PipelineOrderingError => "the order of the passes cannot be satisfied"@,
        }
    }

    /// What the error says to a reader.
    pub fn message(&self) -> (r: String)
        ensures
            r@ == self.message_text(),
    {
        match self {
            Error::UnsupportedType => "unsupported type".to_owned(),
            Error::MissingName => "a declarator name is missing".to_owned(),
            Error::UnexpectedName => "unexpected declarator name".to_owned(),
            Error::UnresolvedReference(reason) => {
                let mut r = "unresolved reference: ".to_owned();
                r.append(reason.message().as_str());
                r
            },
            Error::MalformedInput => "malformed input".to_owned(),
            Error::PipelineOrderingError => "the order of the passes cannot be satisfied".to_owned(),
        }
    }

    /// Whether a pass may skip the offending item and go on with the others.
    pub open spec fn is_recoverable(self) -> bool {
        self is UnresolvedReference
    }

    /// Whether a pass may skip the offending item and go on with the others.
    pub fn recoverable(&self) -> (r: bool)
        ensures
            r == self.is_recoverable(),
    {
        match self {
            Error::UnresolvedReference(_) => true,
            _ => false,
        }
    }
}

} // verus!
