//! Deterministic names of generated interfaces and identifier aliases.
use vstd::prelude::*;
use crate::vocabulary::{Operation, operation_name, has_id_variant};

verus! {

/// `"Cap" + tag + entity`: the name of the interface for one operation.
pub open spec fn interface_name(op: Operation, entity: Seq<char>) -> Seq<char> {
    "Cap"@ + operation_name(op) + entity
}

/// The name of the identifier-keyed sibling: the interface name with `"Id"`.
pub open spec fn id_interface_name(op: Operation, entity: Seq<char>) -> Seq<char> {
    interface_name(op, entity) + "Id"@
}

/// The name of an interface, keyed on the identifier or on the entity.
pub open spec fn derived_name(op: Operation, keyed: bool, entity: Seq<char>) -> Seq<char> {
    if keyed {
        id_interface_name(op, entity)
    } else {
        interface_name(op, entity)
    }
}

/// `entity + "Id"`: the nominal type wrapping an entity's identifier.
pub open spec fn id_alias_name(entity: Seq<char>) -> Seq<char> {
    entity + "Id"@
}

pub fn derive_interface_name(op: Operation, keyed: bool, entity: &String) -> (r: String)
    ensures
        r@ == derived_name(op, keyed, entity@),
{
    let mut name = String::from_str("Cap");
    name.append(op.name());
    name.append(entity.as_str());
    if keyed {
        name.append("Id");
    }
    name
}

pub fn derive_id_alias_name(entity: &String) -> (r: String)
    ensures
        r@ == id_alias_name(entity@),
{
    let mut name = entity.clone();
    name.append("Id");
    name
}

/// Two different interfaces of one entity never get the same name: the
/// naming scheme alone keeps the generated names of an entity apart.
pub proof fn lemma_derived_names_distinct(
    op1: Operation,
    keyed1: bool,
    op2: Operation,
    keyed2: bool,
    entity: Seq<char>,
)
    requires
        op1 != op2 || keyed1 != keyed2,
        keyed1 ==> has_id_variant(op1),
        keyed2 ==> has_id_variant(op2),
    ensures
        derived_name(op1, keyed1, entity) != derived_name(op2, keyed2, entity),
{
    reveal_strlit("Cap");
    reveal_strlit("Id");
    reveal_strlit("Create");
    reveal_strlit("Read");
    reveal_strlit("Update");
    reveal_strlit("Delete");
    reveal_strlit("ReadAll");
    reveal_strlit("UpdateAll");
    reveal_strlit("DeleteAll");
    let n1 = derived_name(op1, keyed1, entity);
    let n2 = derived_name(op2, keyed2, entity);
    if n1.len() == n2.len() {
        assert(n1[3] == operation_name(op1)[0]);
        assert(n2[3] == operation_name(op2)[0]);
        assert(n1[3] != n2[3]);
    }
}

} // verus!
