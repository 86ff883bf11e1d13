//! The entity pass: from an entity annotation to its generated interfaces.
use vstd::prelude::*;
use crate::error::GenError;
use crate::meta::{
    AnnotatedItem, EntityDescriptor, Lit, MetaItem, field_type, last_option, option_str,
    parse_field_args_for_id, parse_metavalue_for_type, get_id_type,
};
use crate::naming::id_alias_name;
use crate::synth::{Interface, generate_caps, generated_interfaces, views};
use crate::vocabulary::{Operation, operation_named};

verus! {

/// The nominal type wrapping an entity's identifier field.
#[derive(Debug)]
pub struct IdAlias {
    /// `entity + "Id"`.
    pub name: String,
    /// The identifier field, which the alias holds under the same name.
    pub field: String,
    /// The declared type of the identifier field.
    pub ty: String,
}

/// What the entity pass generates for one entity.
#[derive(Debug)]
pub struct EntityExpansion {
    /// The entity, unchanged.
    pub entity: EntityDescriptor,
    /// The capability tags as requested, in order.
    pub requested: Vec<Operation>,
    pub id_alias: Option<IdAlias>,
    pub interfaces: Vec<Interface>,
}

/// Whether an argument of an entity annotation is acceptable: a tag of the
/// vocabulary, or an option (options with other keys are ignored).
pub open spec fn tag_ok(m: MetaItem) -> bool {
    match m {
        MetaItem::Path(p) => operation_named(p@) is Some,
        MetaItem::Literal(_) => false,
        _ => true,
    }
}

pub open spec fn tags_ok(args: Seq<MetaItem>) -> bool {
    forall|k: int| 0 <= k < args.len() ==> #[trigger] tag_ok(args[k])
}

/// The error an unacceptable argument is reported with.
pub open spec fn tag_error(m: MetaItem, e: GenError) -> bool {
    match m {
        MetaItem::Path(p) => (e matches GenError::UnknownCapability(n) && n@ == p@),
        _ => e is LiteralInsteadOfName,
    }
}

/// `e` reports the first unacceptable argument.
pub open spec fn first_tag_error(args: Seq<MetaItem>, e: GenError) -> bool {
    exists|k: int|
        0 <= k < args.len() && !#[trigger] tag_ok(args[k]) && tag_error(args[k], e) && forall|j: int|
            0 <= j < k ==> #[trigger] tag_ok(args[j])
}

/// The requested operations: the bare tags, in order.
pub open spec fn requested_ops(args: Seq<MetaItem>) -> Seq<Operation>
    decreases args.len(),
{
    if args.len() == 0 {
        Seq::empty()
    } else {
        let prior = requested_ops(args.drop_last());
        match args.last() {
            MetaItem::Path(p) => match operation_named(p@) {
                Some(op) => prior.push(op),
                None => prior,
            },
            _ => prior,
        }
    }
}

/// The identifier field an entity annotation declares with `id = "..."`.
pub open spec fn declared_id_field(args: Seq<MetaItem>) -> Option<Seq<char>> {
    match last_option(args, "id"@) {
        Some(nv) => option_str(nv),
        None => None,
    }
}

/// The declared identifier field, if any, is a field of the entity.
pub open spec fn id_resolves(args: Seq<MetaItem>, e: EntityDescriptor) -> bool {
    match declared_id_field(args) {
        Some(f) => field_type(e.fields@, f) is Some,
        None => true,
    }
}

/// `x` is what the entity pass generates for `e` under `args`.
pub open spec fn expansion_of(args: Seq<MetaItem>, e: EntityDescriptor, x: EntityExpansion) -> bool {
    &&& x.entity == e
    &&& x.requested@ == requested_ops(args)
    &&& match declared_id_field(args) {
        Some(f) => (x.id_alias matches Some(a) && a.name@ == id_alias_name(e.name@) && a.field@ == f
            && field_type(e.fields@, f) == Some(a.ty@)),
        None => x.id_alias is None,
    }
    &&& views(x.interfaces@) == generated_interfaces(
        requested_ops(args),
        declared_id_field(args) is Some,
        e.name@,
    )
}

/// The outcome of the entity pass on the struct `e`.
pub open spec fn entity_pass(args: Seq<MetaItem>, e: EntityDescriptor, r: Result<EntityExpansion, GenError>) -> bool {
    if !tags_ok(args) {
        r matches Err(err) && first_tag_error(args, err)
    } else if !id_resolves(args, e) {
        r matches Err(GenError::MissingIdField(n)) && declared_id_field(args) == Some(n@)
    } else {
        r matches Ok(x) && expansion_of(args, e, x)
    }
}

/// Reads the requested capability tags; a literal or a name outside the
/// vocabulary aborts with an error naming the first such argument.
pub fn requested_capabilities(attr_args: &Vec<MetaItem>) -> (r: Result<Vec<Operation>, GenError>)
    ensures
        tags_ok(attr_args@) ==> (r matches Ok(ops) && ops@ == requested_ops(attr_args@)),
        !tags_ok(attr_args@) ==> (r matches Err(e) && first_tag_error(attr_args@, e)),
{
    let mut ops: Vec<Operation> = Vec::new();
    let n = attr_args.len();
    for i in 0..n
        invariant
            n == attr_args@.len(),
            forall|j: int| 0 <= j < i ==> #[trigger] tag_ok(attr_args@[j]),
            ops@ == requested_ops(attr_args@.subrange(0, i as int)),
    {
        assert(attr_args@.subrange(0, i + 1).drop_last() =~= attr_args@.subrange(0, i as int));
        match &attr_args[i] {
            MetaItem::Path(p) => match Operation::from_name(p) {
                Some(op) => ops.push(op),
                None => {
                    assert(!tag_ok(attr_args@[i as int]));
                    return Err(GenError::UnknownCapability(p.clone()));
                },
            },
            MetaItem::Literal(_) => {
                assert(!tag_ok(attr_args@[i as int]));
                return Err(GenError::LiteralInsteadOfName);
            },
            _ => {},
        }
    }
    assert(attr_args@.subrange(0, n as int) =~= attr_args@);
    Ok(ops)
}

/// The entity pass: for a struct and the arguments of its annotation, the
/// requested tags, the identifier alias and the generated interfaces; the
/// struct itself is handed back unchanged.
pub fn capabilities(attr_args: &Vec<MetaItem>, item: AnnotatedItem) -> (r: Result<EntityExpansion, GenError>)
    ensures
        match item {
            AnnotatedItem::Struct(e) => entity_pass(attr_args@, e, r),
            _ => r is Err && r->Err_0 is NotAStruct,
        },
{
    let entity = match item {
        AnnotatedItem::Struct(e) => e,
        _ => {
            return Err(GenError::NotAStruct);
        },
    };
    let requested = match requested_capabilities(attr_args) {
        Ok(ops) => ops,
        Err(e) => {
            return Err(e);
        },
    };
    let id_option = parse_field_args_for_id(attr_args);
    let id_type = match parse_metavalue_for_type(id_option, &entity) {
        Ok(t) => t,
        Err(e) => {
            return Err(e);
        },
    };
    let id_alias = match (&id_type, id_option) {
        (Some(ty), Some(nv)) => match &nv.value {
            Lit::Str(field) => Some(
                IdAlias { name: get_id_type(id_option, &entity.name), field: field.clone(), ty: ty.clone() },
            ),
            Lit::Other(_) => None,
        },
        _ => None,
    };
    let interfaces = generate_caps(&requested, &id_type, &entity.name);
    Ok(EntityExpansion { entity, requested, id_alias, interfaces })
}

} // verus!
