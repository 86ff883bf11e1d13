//! Properties of the generation pass, proved over the contracts of the
//! entity and handler passes.
use vstd::prelude::*;
use crate::binder::{HandlerBinding, binding_of, binding_target, names_distinct};
use crate::entity::{EntityExpansion, declared_id_field, expansion_of, requested_ops};
use crate::meta::{AnnotatedItem, EntityDescriptor, MetaItem, field_type};
use crate::naming::{derived_name, lemma_derived_names_distinct};
use crate::synth::{InterfaceView, Payload, generated_interfaces, interface_view, interfaces_for, payload_of, views};
use crate::vocabulary::{Operation, has_id_variant, operation_name, operation_named};

verus! {

/// `v` is an interface that the operations `ops` of `entity` may yield.
pub open spec fn well_formed_entry(v: InterfaceView, ops: Seq<Operation>, has_id: bool, entity: Seq<char>) -> bool {
    &&& v == interface_view(v.operation, v.keyed, entity)
    &&& ops.contains(v.operation)
    &&& v.keyed ==> has_id && has_id_variant(v.operation)
}

proof fn lemma_generated_entries(ops: Seq<Operation>, has_id: bool, entity: Seq<char>)
    ensures
        forall|k: int|
            0 <= k < generated_interfaces(ops, has_id, entity).len() ==> well_formed_entry(
                #[trigger] generated_interfaces(ops, has_id, entity)[k],
                ops,
                has_id,
                entity,
            ),
    decreases ops.len(),
{
    if ops.len() > 0 {
        let prior_ops = ops.drop_last();
        lemma_generated_entries(prior_ops, has_id, entity);
        let prior = generated_interfaces(prior_ops, has_id, entity);
        let all = generated_interfaces(ops, has_id, entity);
        assert forall|k: int| 0 <= k < all.len() implies well_formed_entry(#[trigger] all[k], ops, has_id, entity) by {
            if k < prior.len() {
                assert(all[k] == prior[k]);
                assert(well_formed_entry(prior[k], prior_ops, has_id, entity));
                let j = choose|j: int| 0 <= j < prior_ops.len() && prior_ops[j] == prior[k].operation;
                assert(ops[j] == prior[k].operation);
            } else {
                assert(all[k].operation == ops.last());
                assert(ops[ops.len() - 1] == ops.last());
            }
        }
    }
}

proof fn lemma_generated_contains(ops: Seq<Operation>, has_id: bool, entity: Seq<char>, op: Operation, keyed: bool)
    requires
        keyed ==> has_id_variant(op),
    ensures
        generated_interfaces(ops, has_id, entity).contains(interface_view(op, keyed, entity)) <==> (
        ops.contains(op) && (keyed ==> has_id)),
    decreases ops.len(),
{
    let all = generated_interfaces(ops, has_id, entity);
    let target = interface_view(op, keyed, entity);
    lemma_generated_entries(ops, has_id, entity);
    if all.contains(target) {
        let k = choose|k: int| 0 <= k < all.len() && all[k] == target;
        assert(well_formed_entry(all[k], ops, has_id, entity));
    }
    if ops.contains(op) && (keyed ==> has_id) {
        let prior_ops = ops.drop_last();
        let prior = generated_interfaces(prior_ops, has_id, entity);
        if prior_ops.contains(op) {
            lemma_generated_contains(prior_ops, has_id, entity, op, keyed);
            let k = choose|k: int| 0 <= k < prior.len() && prior[k] == target;
            assert(all[k] == target);
        } else {
            let j = choose|j: int| 0 <= j < ops.len() && ops[j] == op;
            if j < ops.len() - 1 {
                assert(prior_ops[j] == op);
            }
            assert(ops.last() == op);
            let new = interfaces_for(op, has_id, entity);
            if keyed {
                assert(all[prior.len() as int] == new[0]);
                assert(all[prior.len() as int] == target);
            } else {
                assert(all[all.len() - 1] == new[new.len() - 1]);
                assert(all[all.len() - 1] == target);
            }
        }
    }
}

proof fn lemma_generated_names_distinct(ops: Seq<Operation>, has_id: bool, entity: Seq<char>)
    ensures
        names_distinct(generated_interfaces(ops, has_id, entity)),
    decreases ops.len(),
{
    if ops.len() > 0 {
        let prior_ops = ops.drop_last();
        lemma_generated_names_distinct(prior_ops, has_id, entity);
        lemma_generated_entries(prior_ops, has_id, entity);
        lemma_generated_entries(ops, has_id, entity);
        let prior = generated_interfaces(prior_ops, has_id, entity);
        let all = generated_interfaces(ops, has_id, entity);
        if !prior_ops.contains(ops.last()) {
            assert forall|i: int, j: int| 0 <= i < j < all.len() implies #[trigger] all[i].name != #[trigger] all[j].name by {
                assert(well_formed_entry(all[i], ops, has_id, entity));
                assert(well_formed_entry(all[j], ops, has_id, entity));
                if j < prior.len() {
                    assert(all[i] == prior[i] && all[j] == prior[j]);
                } else {
                    if i < prior.len() {
                        assert(all[i] == prior[i]);
                        assert(well_formed_entry(prior[i], prior_ops, has_id, entity));
                        assert(all[i].operation != all[j].operation);
                    } else {
                        assert(all[i].keyed && !all[j].keyed);
                    }
                    lemma_derived_names_distinct(
                        all[i].operation,
                        all[i].keyed,
                        all[j].operation,
                        all[j].keyed,
                        entity,
                    );
                }
            }
        }
    }
}

/// Every requested tag C of an entity E yields the interface named
/// `"Cap" + C + E`, keyed on E.
pub proof fn law_interface_named_after_tag(
    attr_args: Seq<MetaItem>,
    e: EntityDescriptor,
    x: EntityExpansion,
    op: Operation,
)
    requires
        expansion_of(attr_args, e, x),
        requested_ops(attr_args).contains(op),
    ensures
        views(x.interfaces@).contains(
            InterfaceView { name: "Cap"@ + operation_name(op) + e.name@, entity: e.name@, operation: op, keyed: false },
        ),
{
    lemma_generated_contains(requested_ops(attr_args), declared_id_field(attr_args) is Some, e.name@, op, false);
}

/// Generation is deterministic: the same annotation on the same entity
/// always yields the same tags, identifier alias and interfaces.
pub proof fn law_generation_deterministic(
    attr_args: Seq<MetaItem>,
    e: EntityDescriptor,
    x1: EntityExpansion,
    x2: EntityExpansion,
)
    requires
        expansion_of(attr_args, e, x1),
        expansion_of(attr_args, e, x2),
    ensures
        x1.requested@ == x2.requested@,
        x1.id_alias is None <==> x2.id_alias is None,
        x1.id_alias matches Some(a1) ==> (x2.id_alias matches Some(a2) && a1.name@ == a2.name@
            && a1.field@ == a2.field@ && a1.ty@ == a2.ty@),
        views(x1.interfaces@) == views(x2.interfaces@),
{
}

/// With an identifier field declared, each requested Read, Update or Delete
/// also yields the interface `"Cap" + C + E + "Id"`, keyed on the alias type
/// `E + "Id"` that wraps the identifier field's type.
pub proof fn law_identifier_sibling(
    attr_args: Seq<MetaItem>,
    e: EntityDescriptor,
    x: EntityExpansion,
    op: Operation,
)
    requires
        expansion_of(attr_args, e, x),
        requested_ops(attr_args).contains(op),
        declared_id_field(attr_args) is Some,
        has_id_variant(op),
    ensures
        views(x.interfaces@).contains(
            InterfaceView {
                name: "Cap"@ + operation_name(op) + e.name@ + "Id"@,
                entity: e.name@,
                operation: op,
                keyed: true,
            },
        ),
        x.id_alias matches Some(a) && a.name@ == e.name@ + "Id"@ && a.name@ != e.name@ && a.field@
            == declared_id_field(attr_args)->Some_0 && field_type(e.fields@, a.field@) == Some(a.ty@),
        payload_of(op, true) == Payload::IdAlias,
{
    lemma_generated_contains(requested_ops(attr_args), true, e.name@, op, true);
    let a = x.id_alias->Some_0;
    assert(a.name@.len() != e.name@.len()) by {
        reveal_strlit("Id");
    }
}

/// Without an identifier field no alias and no identifier-keyed interface is
/// generated: every interface keys on the entity itself.
pub proof fn law_no_identifier_no_sibling(attr_args: Seq<MetaItem>, e: EntityDescriptor, x: EntityExpansion)
    requires
        expansion_of(attr_args, e, x),
        declared_id_field(attr_args) is None,
    ensures
        x.id_alias is None,
        forall|k: int| 0 <= k < x.interfaces@.len() ==> !(#[trigger] views(x.interfaces@)[k]).keyed,
{
    lemma_generated_entries(requested_ops(attr_args), false, e.name@);
}

/// Pairing: a handler bound to capability C on entity E finds among E's
/// generated interfaces exactly the one generated for (C, E), and finds one
/// only when E requested C (and, for a handler by identifier, declared an
/// identifier).
pub proof fn law_handler_pairs_with_interface(
    entity_args: Seq<MetaItem>,
    e: EntityDescriptor,
    x: EntityExpansion,
    handler_args: Seq<MetaItem>,
    item: AnnotatedItem,
    b: HandlerBinding,
)
    requires
        expansion_of(entity_args, e, x),
        binding_of(handler_args, item, Ok(b)),
        b.entity@ == e.name@,
    ensures
        binding_target(b).name == b.interface@,
        views(x.interfaces@).contains(binding_target(b)) <==> (requested_ops(entity_args).contains(
            b.operation,
        ) && (b.keyed ==> declared_id_field(entity_args) is Some)),
        forall|k: int|
            0 <= k < x.interfaces@.len() && (#[trigger] views(x.interfaces@)[k]).name == b.interface@
                ==> views(x.interfaces@)[k] == binding_target(b),
{
    let ops = requested_ops(entity_args);
    let has_id = declared_id_field(entity_args) is Some;
    lemma_generated_contains(ops, has_id, e.name@, b.operation, b.keyed);
    lemma_generated_entries(ops, has_id, e.name@);
    let all = views(x.interfaces@);
    assert forall|k: int| 0 <= k < x.interfaces@.len() && (#[trigger] views(x.interfaces@)[k]).name == b.interface@ implies views(
        x.interfaces@,
    )[k] == binding_target(b) by {
        assert(well_formed_entry(all[k], ops, has_id, e.name@));
        if all[k].operation != b.operation || all[k].keyed != b.keyed {
            lemma_derived_names_distinct(all[k].operation, all[k].keyed, b.operation, b.keyed, e.name@);
        }
    }
}

/// Requesting a tag that was already requested adds nothing.
pub proof fn law_repeated_tag_adds_nothing(ops: Seq<Operation>, has_id: bool, entity: Seq<char>, op: Operation)
    requires
        ops.contains(op),
    ensures
        generated_interfaces(ops.push(op), has_id, entity) == generated_interfaces(ops, has_id, entity),
{
    assert(ops.push(op).drop_last() =~= ops);
}

/// Writing a tag that the annotation already requests once more changes
/// none of the generated interfaces.
pub proof fn law_repeated_tag_in_annotation(
    attr_args: Seq<MetaItem>,
    tag: String,
    e: EntityDescriptor,
    once: EntityExpansion,
    twice: EntityExpansion,
)
    requires
        operation_named(tag@) is Some,
        requested_ops(attr_args).contains(operation_named(tag@)->Some_0),
        expansion_of(attr_args, e, once),
        expansion_of(attr_args.push(MetaItem::Path(tag)), e, twice),
    ensures
        views(twice.interfaces@) == views(once.interfaces@),
{
    let more = attr_args.push(MetaItem::Path(tag));
    assert(more.drop_last() =~= attr_args);
    assert(declared_id_field(more) == declared_id_field(attr_args));
    law_repeated_tag_adds_nothing(
        requested_ops(attr_args),
        declared_id_field(attr_args) is Some,
        e.name@,
        operation_named(tag@)->Some_0,
    );
}

/// The interfaces generated for one entity never share a name, whatever
/// tags (repeated or not) were requested.
pub proof fn law_generated_names_unique(attr_args: Seq<MetaItem>, e: EntityDescriptor, x: EntityExpansion)
    requires
        expansion_of(attr_args, e, x),
    ensures
        names_distinct(views(x.interfaces@)),
{
    lemma_generated_names_distinct(requested_ops(attr_args), declared_id_field(attr_args) is Some, e.name@);
}

/// An entity that requests no capability gets no interface, so no handler
/// can bind to it, and the entity itself is handed back unchanged.
pub proof fn law_no_capabilities(attr_args: Seq<MetaItem>, e: EntityDescriptor, x: EntityExpansion)
    requires
        expansion_of(attr_args, e, x),
        requested_ops(attr_args).len() == 0,
    ensures
        x.interfaces@.len() == 0,
        x.entity == e,
        forall|b: HandlerBinding| !views(x.interfaces@).contains(#[trigger] binding_target(b)),
{
    assert(views(x.interfaces@).len() == 0);
}

} // verus!
