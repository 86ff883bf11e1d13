//! Errors of the generation pass.
use vstd::prelude::*;

verus! {

/// Why the generation of an annotated item was aborted.
#[derive(Debug)]
pub enum GenError {
    /// The entity annotation was placed on something other than a struct.
    NotAStruct,
    /// The handler annotation was placed on something other than a function.
    NotAFunction,
    /// The handler annotation carries no arguments at all.
    MissingArguments,
    /// The handler annotation names an entity but no capability.
    MissingCapability,
    /// A capability or entity was given as a literal instead of a name.
    LiteralInsteadOfName,
    /// A capability tag outside the vocabulary.
    UnknownCapability(String),
    /// The declared identifier field is not a field of the entity.
    MissingIdField(String),
    /// The handler's identifier-type marker is not a string literal.
    MalformedIdType,
    /// No interface was generated for the handler's target.
    NoSuchInterface(String),
    /// An interface name is already taken.
    NameCollision(String),
    /// The service annotation names no backing resource.
    MissingServiceType,
    /// The service annotation starts with a literal.
    LiteralServiceType,
    /// The service annotation starts with an option instead of its resource type.
    ServiceTypeOrder(String),
    /// The backing resource type is not one the library supports.
    UnsupportedServiceType(String),
}

} // verus!
