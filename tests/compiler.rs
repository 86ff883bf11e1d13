use capabilities::binder::{capability, HandlerShape, Registry};
use capabilities::entity::{capabilities, requested_capabilities};
use capabilities::meta::{
    get_id_type, get_ident_from_field_name, parse_field_args_for_id, parse_metavalue_for_type,
    parse_metavalue_for_type_ident, parse_service_field_for_name, AnnotatedItem, EntityDescriptor,
    Field, HandlerFn, Lit, MetaItem, NameValue,
};
use capabilities::naming::{derive_id_alias_name, derive_interface_name};
use capabilities::service::{service, Backing};
use capabilities::synth::{generate_caps, Interface, Payload, Produces};
use capabilities::vocabulary::Operation;
use capabilities::{Capability, GenError};

fn path(s: &str) -> MetaItem {
    MetaItem::Path(s.to_string())
}

fn opt(key: &str, value: &str) -> MetaItem {
    MetaItem::NameValue(NameValue { key: key.to_string(), value: Lit::Str(value.to_string()) })
}

fn orders() -> EntityDescriptor {
    EntityDescriptor {
        name: "Orders".to_string(),
        fields: vec![
            Field { name: "id".to_string(), ty: "i32".to_string() },
            Field { name: "name".to_string(), ty: "String".to_string() },
        ],
    }
}

fn handler(name: &str, param: Option<&str>) -> AnnotatedItem {
    AnnotatedItem::Function(HandlerFn { name: name.to_string(), param: param.map(|p| p.to_string()) })
}

fn names(interfaces: &[Interface]) -> Vec<String> {
    interfaces.iter().map(|i| i.name.clone()).collect()
}

#[test]
fn interface_name_is_cap_tag_entity() {
    assert_eq!(derive_interface_name(Operation::Read, false, &"Orders".to_string()), "CapReadOrders");
    assert_eq!(derive_interface_name(Operation::DeleteAll, false, &"Person".to_string()), "CapDeleteAllPerson");
    assert_eq!(derive_interface_name(Operation::Update, true, &"Orders".to_string()), "CapUpdateOrdersId");
    assert_eq!(derive_id_alias_name(&"Orders".to_string()), "OrdersId");
}

#[test]
fn generation_is_deterministic() {
    let args = vec![path("Read"), path("Create"), opt("id", "id")];
    let a = capabilities(&args, AnnotatedItem::Struct(orders())).unwrap();
    let b = capabilities(&args, AnnotatedItem::Struct(orders())).unwrap();
    assert_eq!(names(&a.interfaces), names(&b.interfaces));
    assert_eq!(names(&a.interfaces), vec!["CapReadOrdersId", "CapReadOrders", "CapCreateOrders"]);
}

#[test]
fn identifier_field_adds_keyed_siblings() {
    let args = vec![path("Create"), path("Read"), path("Update"), path("Delete"), opt("id", "id")];
    let x = capabilities(&args, AnnotatedItem::Struct(orders())).unwrap();
    assert_eq!(
        names(&x.interfaces),
        vec![
            "CapCreateOrders",
            "CapReadOrdersId",
            "CapReadOrders",
            "CapUpdateOrdersId",
            "CapUpdateOrders",
            "CapDeleteOrdersId",
            "CapDeleteOrders",
        ]
    );
    let alias = x.id_alias.unwrap();
    assert_eq!(alias.name, "OrdersId");
    assert_eq!(alias.field, "id");
    assert_eq!(alias.ty, "i32");
    assert_eq!(x.interfaces[1].payload(), Payload::IdAlias);
    assert_eq!(x.interfaces[2].payload(), Payload::Entity);
}

#[test]
fn no_identifier_no_siblings() {
    let args = vec![path("Read"), path("Delete")];
    let x = capabilities(&args, AnnotatedItem::Struct(orders())).unwrap();
    assert!(x.id_alias.is_none());
    assert_eq!(names(&x.interfaces), vec!["CapReadOrders", "CapDeleteOrders"]);
    assert!(x.interfaces.iter().all(|i| !i.keyed && i.payload() == Payload::Entity));
}

#[test]
fn collection_operations_have_no_sibling() {
    let args = vec![path("ReadAll"), path("UpdateAll"), path("DeleteAll"), opt("id", "id")];
    let x = capabilities(&args, AnnotatedItem::Struct(orders())).unwrap();
    assert_eq!(names(&x.interfaces), vec!["CapReadAllOrders", "CapUpdateAllOrders", "CapDeleteAllOrders"]);
    assert_eq!(x.interfaces[0].payload(), Payload::Entity);
    assert_eq!(x.interfaces[0].produces(), Produces::EntityList);
    assert_eq!(x.interfaces[1].payload(), Payload::EntityList);
    assert_eq!(x.interfaces[1].produces(), Produces::Unit);
    assert_eq!(x.interfaces[2].capability(), Capability::DeleteAll);
}

#[test]
fn repeated_tag_is_idempotent() {
    let once = generate_caps(&vec![Operation::Read], &Some("i32".to_string()), &"Orders".to_string());
    let twice =
        generate_caps(&vec![Operation::Read, Operation::Read], &Some("i32".to_string()), &"Orders".to_string());
    assert_eq!(names(&once), names(&twice));
    assert_eq!(names(&twice), vec!["CapReadOrdersId", "CapReadOrders"]);
}

#[test]
fn zero_capabilities_generate_nothing() {
    let args = vec![opt("id", "id")];
    let x = capabilities(&args, AnnotatedItem::Struct(orders())).unwrap();
    assert!(x.interfaces.is_empty());
    assert!(x.requested.is_empty());
    assert_eq!(x.entity.name, "Orders");
    assert_eq!(x.entity.fields.len(), 2);
    assert_eq!(x.entity.fields[1].name, "name");
    let mut registry = Registry::new();
    registry.register(x.interfaces).unwrap();
    let b = capability(&vec![path("Read"), path("Orders")], handler("read_order", Some("order"))).unwrap();
    assert!(matches!(registry.resolve(&b), Err(GenError::NoSuchInterface(n)) if n == "CapReadOrders"));
}

#[test]
fn handler_resolves_to_generated_interface() {
    let x = capabilities(&vec![path("Read"), opt("id", "id")], AnnotatedItem::Struct(orders())).unwrap();
    let mut registry = Registry::new();
    registry.register(x.interfaces).unwrap();

    let b = capability(&vec![path("Read"), path("Orders")], handler("read_order", Some("order"))).unwrap();
    assert_eq!(b.interface, "CapReadOrders");
    assert_eq!(b.key_type, "Orders");
    assert_eq!(b.shape(), HandlerShape::Plain);
    let i = registry.resolve(&b).unwrap();
    assert_eq!(i.name, "CapReadOrders");
    assert_eq!(i.operation, Operation::Read);
    assert!(!i.keyed);

    let by_id = capability(
        &vec![path("Read"), path("Orders"), opt("id", "i32")],
        handler("read_order_by_id", Some("order_id")),
    )
    .unwrap();
    assert_eq!(by_id.interface, "CapReadOrdersId");
    assert_eq!(by_id.key_type, "i32");
    assert_eq!(by_id.handler.param.as_deref(), Some("order_id"));
    assert_eq!(by_id.shape(), HandlerShape::IdKeyed);
    let j = registry.resolve(&by_id).unwrap();
    assert_eq!(j.name, "CapReadOrdersId");
    assert!(j.keyed);
}

#[test]
fn handler_without_generated_interface_fails() {
    let x = capabilities(&vec![path("Read")], AnnotatedItem::Struct(orders())).unwrap();
    let mut registry = Registry::new();
    registry.register(x.interfaces).unwrap();
    let b = capability(&vec![path("Update"), path("Orders")], handler("update_order", Some("o"))).unwrap();
    assert!(matches!(registry.resolve(&b), Err(GenError::NoSuchInterface(n)) if n == "CapUpdateOrders"));
    // no identifier declared, so no keyed sibling to bind to
    let by_id =
        capability(&vec![path("Read"), path("Orders"), opt("id", "i32")], handler("read_by_id", Some("i"))).unwrap();
    assert!(matches!(registry.resolve(&by_id), Err(GenError::NoSuchInterface(n)) if n == "CapReadOrdersId"));
}

#[test]
fn handler_shapes_follow_the_operation() {
    let shape = |tag: &str| capability(&vec![path(tag), path("Orders")], handler("f", Some("p"))).unwrap().shape();
    assert_eq!(shape("Create"), HandlerShape::Plain);
    assert_eq!(shape("Read"), HandlerShape::Plain);
    assert_eq!(shape("Update"), HandlerShape::NoResult);
    assert_eq!(shape("Delete"), HandlerShape::NoResult);
    assert_eq!(shape("ReadAll"), HandlerShape::ReadAll);
    assert_eq!(shape("UpdateAll"), HandlerShape::UpdateAll);
    assert_eq!(shape("DeleteAll"), HandlerShape::DeleteAll);
}

#[test]
fn registry_refuses_name_collisions() {
    let mut registry = Registry::new();
    let orders = generate_caps(&vec![Operation::ReadAll], &None, &"Orders".to_string());
    registry.register(orders).unwrap();
    let all_orders = generate_caps(&vec![Operation::Read], &None, &"AllOrders".to_string());
    assert!(matches!(registry.register(all_orders), Err(GenError::NameCollision(n)) if n == "CapReadAllOrders"));
    let again = generate_caps(&vec![Operation::Create], &None, &"Orders".to_string());
    registry.register(again).unwrap();
}

#[test]
fn entity_pass_errors() {
    assert!(matches!(capabilities(&vec![path("Read")], AnnotatedItem::Other), Err(GenError::NotAStruct)));
    assert!(matches!(
        capabilities(&vec![path("Read")], handler("f", None)),
        Err(GenError::NotAStruct)
    ));
    assert!(matches!(
        capabilities(&vec![path("Read"), path("Fly")], AnnotatedItem::Struct(orders())),
        Err(GenError::UnknownCapability(n)) if n == "Fly"
    ));
    assert!(matches!(
        capabilities(&vec![MetaItem::Literal(Lit::Str("Read".to_string()))], AnnotatedItem::Struct(orders())),
        Err(GenError::LiteralInsteadOfName)
    ));
    assert!(matches!(
        capabilities(&vec![path("Read"), opt("id", "uuid")], AnnotatedItem::Struct(orders())),
        Err(GenError::MissingIdField(n)) if n == "uuid"
    ));
    // unrecognized options are ignored
    let x = capabilities(
        &vec![path("Read"), opt("table", "orders"), MetaItem::List("derive".to_string())],
        AnnotatedItem::Struct(orders()),
    )
    .unwrap();
    assert_eq!(names(&x.interfaces), vec!["CapReadOrders"]);
    assert_eq!(requested_capabilities(&vec![path("Delete"), path("Read")]).unwrap(), vec![
        Operation::Delete,
        Operation::Read
    ]);
}

#[test]
fn handler_pass_errors() {
    assert!(matches!(capability(&vec![], handler("f", None)), Err(GenError::MissingArguments)));
    assert!(matches!(
        capability(&vec![path("Read"), path("Orders")], AnnotatedItem::Other),
        Err(GenError::NotAFunction)
    ));
    assert!(matches!(capability(&vec![path("Orders")], handler("f", None)), Err(GenError::MissingCapability)));
    assert!(matches!(
        capability(&vec![MetaItem::Literal(Lit::Other("1".to_string())), path("Orders")], handler("f", None)),
        Err(GenError::LiteralInsteadOfName)
    ));
    assert!(matches!(
        capability(&vec![path("Patch"), path("Orders")], handler("f", None)),
        Err(GenError::UnknownCapability(n)) if n == "Patch"
    ));
    let malformed = MetaItem::NameValue(NameValue { key: "id".to_string(), value: Lit::Other("5".to_string()) });
    assert!(matches!(
        capability(&vec![path("Read"), path("Orders"), malformed], handler("f", None)),
        Err(GenError::MalformedIdType)
    ));
    assert!(matches!(
        capability(&vec![path("Create"), path("Orders"), opt("id", "i32")], handler("f", None)),
        Err(GenError::NoSuchInterface(n)) if n == "CapCreateOrdersId"
    ));
}

#[test]
fn option_parsers_take_the_last_option() {
    let args = vec![path("SqliteDb"), opt("name", "db"), opt("id", "id"), opt("name", "pool")];
    let nv = parse_service_field_for_name(&args).unwrap();
    assert!(matches!(&nv.value, Lit::Str(s) if s == "pool"));
    let id = parse_field_args_for_id(&args).unwrap();
    assert_eq!(id.key, "id");
    assert!(parse_field_args_for_id(&vec![path("Read")]).is_none());
    assert_eq!(get_ident_from_field_name(Some(nv)), "pool");
    assert_eq!(get_ident_from_field_name(None), "con");
    assert_eq!(get_id_type(Some(id), &"Orders".to_string()), "OrdersId");
    assert_eq!(get_id_type(None, &"Orders".to_string()), "Orders");
    assert_eq!(parse_metavalue_for_type_ident(None, &"Orders".to_string()), Some("Orders".to_string()));
    assert_eq!(parse_metavalue_for_type_ident(Some(id), &"Orders".to_string()), Some("id".to_string()));
    assert_eq!(parse_metavalue_for_type(Some(id), &orders()).unwrap(), Some("i32".to_string()));
    assert_eq!(parse_metavalue_for_type(None, &orders()).unwrap(), None);
}

#[test]
fn service_pass() {
    let d = service(&vec![path("SqliteDb")]).unwrap();
    assert_eq!(d.backing, Backing::SqliteDb);
    assert_eq!(d.field, "con");
    let d = service(&vec![path("PostgresDb"), opt("name", "db")]).unwrap();
    assert_eq!(d.backing, Backing::PostgresDb);
    assert_eq!(d.field, "db");
    assert!(d.backing.is_database());
    let w = service(&vec![path("WebService"), opt("name", "megakult")]).unwrap();
    assert_eq!(w.field, "megakult");
    assert!(!w.backing.is_database());
    assert!(matches!(service(&vec![]), Err(GenError::MissingServiceType)));
    assert!(matches!(
        service(&vec![path("PoolSqlite")]),
        Err(GenError::UnsupportedServiceType(n)) if n == "PoolSqlite"
    ));
    assert!(matches!(
        service(&vec![opt("name", "db"), path("SqliteDb")]),
        Err(GenError::ServiceTypeOrder(n)) if n == "name"
    ));
    assert!(matches!(
        service(&vec![MetaItem::Literal(Lit::Str("SqliteDb".to_string()))]),
        Err(GenError::LiteralServiceType)
    ));
}

#[test]
fn registry_refuses_a_batch_that_repeats_a_name() {
    let mut registry = Registry::new();
    let mut batch = generate_caps(&vec![Operation::Read], &None, &"Orders".to_string());
    batch.extend(generate_caps(&vec![Operation::Read], &None, &"Orders".to_string()));
    assert!(matches!(registry.register(batch), Err(GenError::NameCollision(n)) if n == "CapReadOrders"));
    let b = capability(&vec![path("Read"), path("Orders")], handler("read_order", Some("order"))).unwrap();
    assert!(registry.resolve(&b).is_err());
}
