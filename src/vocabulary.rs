//! The fixed capability vocabulary shared by generated interfaces and the
//! runtime authorization bridge.
use vstd::prelude::*;

verus! {

/// What an authorization token grants, at run time.
#[derive(Debug, Clone, Copy, PartialEq, Eq, Structural)]
pub enum Capability {
    Read,
    ReadAll,
    Write,
    Create,
    Update,
    UpdateAll,
    Delete,
    DeleteAll,
    Invalid,
}

/// The capability an action string of a token grant stands for.
pub open spec fn action_capability_spec(action: Seq<char>) -> Capability {
    if action == "read"@ {
        Capability::Read
    } else if action == "create"@ {
        Capability::Create
    } else if action == "write"@ {
        Capability::Write
    } else if action == "update"@ {
        Capability::Update
    } else if action == "delete"@ {
        Capability::Delete
    } else {
        Capability::Invalid
    }
}

/// Whether `s` holds exactly the characters of `lit`.
pub fn text_is(s: &String, lit: &str) -> (r: bool)
    ensures
        r == (s@ == lit@),
{
    let other = String::from_str(lit);
    s.eq(&other)
}

/// Maps one granted action string onto the vocabulary; anything unknown is
/// `Invalid`.
pub fn action_capability(action: &String) -> (r: Capability)
    ensures
        r == action_capability_spec(action@),
{
    if text_is(action, "read") {
        Capability::Read
    } else if text_is(action, "create") {
        Capability::Create
    } else if text_is(action, "write") {
        Capability::Write
    } else if text_is(action, "update") {
        Capability::Update
    } else if text_is(action, "delete") {
        Capability::Delete
    } else {
        Capability::Invalid
    }
}

/// Carrier of a create operation: the entity to store.
pub struct Create<T> {
    pub data: T,
}

/// Carrier of a read operation: the entity, or its identifier, to look up.
pub struct Read<T> {
    pub data: T,
}

/// Carrier of an update operation.
pub struct Update<T> {
    pub data: T,
}

/// Carrier of a delete operation.
pub struct Delete<T> {
    pub data: T,
}

/// Carrier of a read of every stored entity.
pub struct ReadAll<T> {
    pub data: T,
}

/// Carrier of an update of a collection of entities.
pub struct UpdateAll<T> {
    pub data: T,
}

/// Carrier of a delete of a collection of entities.
pub struct DeleteAll<T> {
    pub data: T,
}

/// Sentinel payload of an operation that takes no input.
pub struct EmptyInput;

/// Binds an operation carrier to the runtime capability it requires.
pub trait CapToEnum {
    /// The capability this carrier is bound to.
    spec fn bound_capability(&self) -> Capability;

    fn into_enum(&self) -> (r: Capability)
        ensures
            r == self.bound_capability(),
    ;
}

impl<T> CapToEnum for Create<T> {
    open spec fn bound_capability(&self) -> Capability {
        Capability::Create
    }

    fn into_enum(&self) -> (r: Capability) {
        Capability::Create
    }
}

impl<T> CapToEnum for Read<T> {
    open spec fn bound_capability(&self) -> Capability {
        Capability::Read
    }

    fn into_enum(&self) -> (r: Capability) {
        Capability::Read
    }
}

impl<T> CapToEnum for Update<T> {
    open spec fn bound_capability(&self) -> Capability {
        Capability::Update
    }

    fn into_enum(&self) -> (r: Capability) {
        Capability::Update
    }
}

impl<T> CapToEnum for Delete<T> {
    open spec fn bound_capability(&self) -> Capability {
        Capability::Delete
    }

    fn into_enum(&self) -> (r: Capability) {
        Capability::Delete
    }
}

impl<T> CapToEnum for ReadAll<T> {
    open spec fn bound_capability(&self) -> Capability {
        Capability::ReadAll
    }

    fn into_enum(&self) -> (r: Capability) {
        Capability::ReadAll
    }
}

impl<T> CapToEnum for UpdateAll<T> {
    open spec fn bound_capability(&self) -> Capability {
        Capability::UpdateAll
    }

    fn into_enum(&self) -> (r: Capability) {
        Capability::UpdateAll
    }
}

impl<T> CapToEnum for DeleteAll<T> {
    open spec fn bound_capability(&self) -> Capability {
        Capability::DeleteAll
    }

    fn into_enum(&self) -> (r: Capability) {
        Capability::DeleteAll
    }
}

/// The seven base operations an entity can request.
#[derive(Debug, Clone, Copy, PartialEq, Eq, Structural)]
pub enum Operation {
    Create,
    Read,
    Update,
    Delete,
    ReadAll,
    UpdateAll,
    DeleteAll,
}

/// The tag of an operation as written in an annotation and in derived names.
pub open spec fn operation_name(op: Operation) -> Seq<char> {
    match op {
        Operation::Create => "Create"@,
        Operation::Read => "Read"@,
        Operation::Update => "Update"@,
        Operation::Delete => "Delete"@,
        Operation::ReadAll => "ReadAll"@,
        Operation::UpdateAll => "UpdateAll"@,
        Operation::DeleteAll => "DeleteAll"@,
    }
}

/// The runtime capability an operation's carrier is bound to.
pub open spec fn operation_capability(op: Operation) -> Capability {
    match op {
        Operation::Create => Capability::Create,
        Operation::Read => Capability::Read,
        Operation::Update => Capability::Update,
        Operation::Delete => Capability::Delete,
        Operation::ReadAll => Capability::ReadAll,
        Operation::UpdateAll => Capability::UpdateAll,
        Operation::DeleteAll => Capability::DeleteAll,
    }
}

/// Whether an operation also gets an identifier-keyed interface.
pub open spec fn has_id_variant(op: Operation) -> bool {
    op == Operation::Read || op == Operation::Update || op == Operation::Delete
}

/// The operation whose tag is `name`, if any.
pub open spec fn operation_named(name: Seq<char>) -> Option<Operation> {
    if name == "Create"@ {
        Some(Operation::Create)
    } else if name == "Read"@ {
        Some(Operation::Read)
    } else if name == "Update"@ {
        Some(Operation::Update)
    } else if name == "Delete"@ {
        Some(Operation::Delete)
    } else if name == "ReadAll"@ {
        Some(Operation::ReadAll)
    } else if name == "UpdateAll"@ {
        Some(Operation::UpdateAll)
    } else if name == "DeleteAll"@ {
        Some(Operation::DeleteAll)
    } else {
        None
    }
}

impl Operation {
    pub fn name(&self) -> (r: &'static str)
        ensures
            r@ == operation_name(*self),
    {
        match self {
            Operation::Create => "Create",
            Operation::Read => "Read",
            Operation::Update => "Update",
            Operation::Delete => "Delete",
            Operation::ReadAll => "ReadAll",
            Operation::UpdateAll => "UpdateAll",
            Operation::DeleteAll => "DeleteAll",
        }
    }

    pub fn capability(&self) -> (r: Capability)
        ensures
            r == operation_capability(*self),
    {
        match self {
            Operation::Create => Capability::Create,
            Operation::Read => Capability::Read,
            Operation::Update => Capability::Update,
            Operation::Delete => Capability::Delete,
            Operation::ReadAll => Capability::ReadAll,
            Operation::UpdateAll => Capability::UpdateAll,
            Operation::DeleteAll => Capability::DeleteAll,
        }
    }

    pub fn has_id_variant(&self) -> (r: bool)
        ensures
            r == has_id_variant(*self),
    {
        match self {
            Operation::Read | Operation::Update | Operation::Delete => true,
            _ => false,
        }
    }

    /// Recognizes a capability tag of the vocabulary.
    pub fn from_name(name: &String) -> (r: Option<Operation>)
        ensures
            r == operation_named(name@),
    {
        if text_is(name, "Create") {
            Some(Operation::Create)
        } else if text_is(name, "Read") {
            Some(Operation::Read)
        } else if text_is(name, "Update") {
            Some(Operation::Update)
        } else if text_is(name, "Delete") {
            Some(Operation::Delete)
        } else if text_is(name, "ReadAll") {
            Some(Operation::ReadAll)
        } else if text_is(name, "UpdateAll") {
            Some(Operation::UpdateAll)
        } else if text_is(name, "DeleteAll") {
            Some(Operation::DeleteAll)
        } else {
            None
        }
    }
}

} // verus!
