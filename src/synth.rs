//! The capability interface synthesizer and the entity pass.
use vstd::prelude::*;
use crate::error::GenError;
use crate::naming::{derive_interface_name, derived_name};
use crate::vocabulary::{Capability, Operation, has_id_variant, operation_capability};

verus! {

/// A generated capability interface of one entity.
#[derive(Debug)]
pub struct Interface {
    pub name: String,
    pub entity: String,
    pub operation: Operation,
    /// Keyed on the identifier alias rather than on the entity.
    pub keyed: bool,
}

/// The mathematical view of an interface.
pub struct InterfaceView {
    pub name: Seq<char>,
    pub entity: Seq<char>,
    pub operation: Operation,
    pub keyed: bool,
}

impl View for Interface {
    type V = InterfaceView;

    open spec fn view(&self) -> InterfaceView {
        InterfaceView {
            name: self.name@,
            entity: self.entity@,
            operation: self.operation,
            keyed: self.keyed,
        }
    }
}

/// What the carrier of an interface holds.
#[derive(Debug, Clone, Copy, PartialEq, Eq, Structural)]
pub enum Payload {
    Entity,
    IdAlias,
    EntityList,
}

/// What an interface's operation produces.
#[derive(Debug, Clone, Copy, PartialEq, Eq, Structural)]
pub enum Produces {
    Entity,
    Unit,
    EntityList,
}

pub open spec fn payload_of(op: Operation, keyed: bool) -> Payload {
    if keyed {
        Payload::IdAlias
    } else if op == Operation::UpdateAll || op == Operation::DeleteAll {
        Payload::EntityList
    } else {
        Payload::Entity
    }
}

pub open spec fn produces_of(op: Operation) -> Produces {
    match op {
        Operation::Create | Operation::Read => Produces::Entity,
        Operation::ReadAll => Produces::EntityList,
        _ => Produces::Unit,
    }
}

/// The interface for one operation of an entity.
pub open spec fn interface_view(op: Operation, keyed: bool, entity: Seq<char>) -> InterfaceView {
    InterfaceView { name: derived_name(op, keyed, entity), entity, operation: op, keyed }
}

/// The interfaces one requested operation yields: the identifier-keyed
/// sibling first where there is one, then the entity-keyed interface.
pub open spec fn interfaces_for(op: Operation, has_id: bool, entity: Seq<char>) -> Seq<InterfaceView> {
    if has_id && has_id_variant(op) {
        seq![interface_view(op, true, entity), interface_view(op, false, entity)]
    } else {
        seq![interface_view(op, false, entity)]
    }
}

/// The interfaces a list of requested operations yields; a repeated request
/// adds nothing.
pub open spec fn generated_interfaces(ops: Seq<Operation>, has_id: bool, entity: Seq<char>) -> Seq<InterfaceView>
    decreases ops.len(),
{
    if ops.len() == 0 {
        Seq::empty()
    } else {
        let prior = generated_interfaces(ops.drop_last(), has_id, entity);
        if ops.drop_last().contains(ops.last()) {
            prior
        } else {
            prior + interfaces_for(ops.last(), has_id, entity)
        }
    }
}

pub open spec fn views(s: Seq<Interface>) -> Seq<InterfaceView> {
    s.map_values(|i: Interface| i@)
}

impl Interface {
    pub fn new(op: Operation, keyed: bool, entity: &String) -> (r: Interface)
        ensures
            r@ == interface_view(op, keyed, entity@),
    {
        Interface {
            name: derive_interface_name(op, keyed, entity),
            entity: entity.clone(),
            operation: op,
            keyed,
        }
    }

    pub fn payload(&self) -> (r: Payload)
        ensures
            r == payload_of(self.operation, self.keyed),
    {
        if self.keyed {
            Payload::IdAlias
        } else {
            match self.operation {
                Operation::UpdateAll | Operation::DeleteAll => Payload::EntityList,
                _ => Payload::Entity,
            }
        }
    }

    pub fn produces(&self) -> (r: Produces)
        ensures
            r == produces_of(self.operation),
    {
        match self.operation {
            Operation::Create | Operation::Read => Produces::Entity,
            Operation::ReadAll => Produces::EntityList,
            _ => Produces::Unit,
        }
    }

    /// The runtime capability the interface's carrier is bound to.
    pub fn capability(&self) -> (r: Capability)
        ensures
            r == operation_capability(self.operation),
    {
        self.operation.capability()
    }
}

/// Whether `ops[i]` was already requested before position `i`.
fn occurs_before(ops: &Vec<Operation>, i: usize) -> (r: bool)
    requires
        i < ops@.len(),
    ensures
        r == ops@.subrange(0, i as int).contains(ops@[i as int]),
{
    let mut j: usize = 0;
    while j < i
        invariant
            j <= i < ops@.len(),
            !ops@.subrange(0, j as int).contains(ops@[i as int]),
        decreases i - j,
    {
        if ops[j] == ops[i] {
            assert(ops@.subrange(0, i as int)[j as int] == ops@[i as int]);
            return true;
        }
        assert(ops@.subrange(0, j + 1) =~= ops@.subrange(0, j as int).push(ops@[j as int]));
        j = j + 1;
    }
    assert(ops@.subrange(0, i as int) =~= ops@.subrange(0, j as int));
    false
}

/// Synthesizes the interfaces of the requested operations of one entity;
/// an entity with an identifier also gets identifier-keyed siblings.
pub fn generate_caps(
    capabilities: &Vec<Operation>,
    id_type: &Option<String>,
    struct_name: &String,
) -> (r: Vec<Interface>)
    ensures
        views(r@) == generated_interfaces(capabilities@, id_type is Some, struct_name@),
{
    let has_id = id_type.is_some();
    let mut out: Vec<Interface> = Vec::new();
    let n = capabilities.len();
    for i in 0..n
        invariant
            n == capabilities@.len(),
            has_id == id_type is Some,
            views(out@) == generated_interfaces(capabilities@.subrange(0, i as int), has_id, struct_name@),
    {
        let op = capabilities[i];
        let ghost before = out@;
        assert(capabilities@.subrange(0, i + 1).drop_last() =~= capabilities@.subrange(0, i as int));
        if !occurs_before(capabilities, i) {
            if has_id && op.has_id_variant() {
                out.push(Interface::new(op, true, struct_name));
            }
            out.push(Interface::new(op, false, struct_name));
            assert(views(out@) =~= views(before) + interfaces_for(op, has_id, struct_name@));
        } else {
            assert(out@ == before);
        }
    }
    assert(capabilities@.subrange(0, n as int) =~= capabilities@);
    out
}

} // verus!
