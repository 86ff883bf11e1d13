use std::cell::Cell;

use capabilities::binder::{capability, Registry};
use capabilities::bridge::{
    authorize, get_access_type, introspection_capability, AccessGrant, AuthError, DispatchError, Introspection,
};
use capabilities::entity::capabilities;
use capabilities::meta::{AnnotatedItem, EntityDescriptor, Field, HandlerFn, Lit, MetaItem, NameValue};
use capabilities::perform::{dispatch, Capability as Perform};
use capabilities::{Capability, Delete, FilterConfig, Read};

#[derive(Debug, Clone, PartialEq)]
struct Orders {
    id: i32,
    name: String,
}

#[derive(Debug, Clone, PartialEq)]
struct OrdersId {
    id: i32,
}

#[derive(Debug)]
struct ServiceError;

struct Service {
    calls: Cell<u32>,
}

impl Perform<Read<Orders>> for Service {
    type Data = Orders;
    type Error = ServiceError;

    fn perform(&self, op: Read<Orders>) -> Result<Orders, ServiceError> {
        self.calls.set(self.calls.get() + 1);
        Ok(Orders { id: op.data.id, name: op.data.name })
    }
}

impl Perform<Delete<Orders>> for Service {
    type Data = ();
    type Error = ServiceError;

    fn perform(&self, _op: Delete<Orders>) -> Result<(), ServiceError> {
        self.calls.set(self.calls.get() + 1);
        Ok(())
    }
}

impl Perform<Delete<OrdersId>> for Service {
    type Data = ();
    type Error = ServiceError;

    fn perform(&self, op: Delete<OrdersId>) -> Result<(), ServiceError> {
        self.calls.set(self.calls.get() + 1);
        if op.data.id < 0 {
            Err(ServiceError)
        } else {
            Ok(())
        }
    }
}

fn grant(actions: &[&str]) -> AccessGrant {
    AccessGrant::Value { actions: Some(actions.iter().map(|a| a.to_string()).collect()) }
}

fn active(access: Vec<AccessGrant>) -> Option<Introspection> {
    Some(Introspection { active: true, access: Some(access) })
}

#[test]
fn read_token_allows_read_and_rejects_delete() {
    let cap = introspection_capability(&active(vec![grant(&["read"])])).unwrap();
    assert_eq!(cap, Capability::Read);
    let svc = Service { calls: Cell::new(0) };
    let order = Orders { id: 1, name: "All my expensive stuff".to_string() };
    let r = dispatch(&svc, Read { data: order.clone() }, cap);
    assert_eq!(r.unwrap(), order);
    let denied = dispatch(&svc, Read { data: order }, Capability::Delete);
    assert!(matches!(denied, Err(DispatchError::Unauthorized)));
    assert_eq!(svc.calls.get(), 1);
}

#[test]
fn inactive_token_is_rejected() {
    let outcome = Some(Introspection { active: false, access: Some(vec![grant(&["read"])]) });
    assert_eq!(introspection_capability(&outcome), Err(AuthError::InactiveToken));
    assert_eq!(introspection_capability(&None), Err(AuthError::CannotIntrospect));
}

#[test]
fn delete_by_entity_and_by_identifier() {
    let entity = EntityDescriptor {
        name: "Orders".to_string(),
        fields: vec![
            Field { name: "id".to_string(), ty: "i32".to_string() },
            Field { name: "name".to_string(), ty: "String".to_string() },
        ],
    };
    let id_opt = |v: &str| MetaItem::NameValue(NameValue { key: "id".to_string(), value: Lit::Str(v.to_string()) });
    let x = capabilities(&vec![MetaItem::Path("Delete".to_string()), id_opt("id")], AnnotatedItem::Struct(entity))
        .unwrap();
    let alias = x.id_alias.as_ref().unwrap();
    assert_eq!(alias.name, "OrdersId");
    let mut registry = Registry::new();
    registry.register(x.interfaces).unwrap();
    let fun = |n: &str, p: &str| AnnotatedItem::Function(HandlerFn { name: n.to_string(), param: Some(p.to_string()) });
    let by_entity = capability(
        &vec![MetaItem::Path("Delete".to_string()), MetaItem::Path("Orders".to_string())],
        fun("delete_order", "order"),
    )
    .unwrap();
    let by_id = capability(
        &vec![MetaItem::Path("Delete".to_string()), MetaItem::Path("Orders".to_string()), id_opt("i32")],
        fun("delete_order_by_id", "order_id"),
    )
    .unwrap();
    assert_eq!(registry.resolve(&by_entity).unwrap().name, "CapDeleteOrders");
    assert_eq!(registry.resolve(&by_id).unwrap().name, "CapDeleteOrdersId");

    let svc = Service { calls: Cell::new(0) };
    let order = Orders { id: 1, name: "My bad order".to_string() };
    let r1: Result<(), _> = dispatch(&svc, Delete { data: order }, Capability::Delete);
    assert!(matches!(r1, Ok(())));
    let r2: Result<(), _> = dispatch(&svc, Delete { data: OrdersId { id: 2 } }, Capability::Delete);
    assert!(matches!(r2, Ok(())));
    let r3: Result<(), _> = dispatch(&svc, Delete { data: OrdersId { id: -1 } }, Capability::Delete);
    assert!(matches!(r3, Err(DispatchError::Failed(ServiceError))));
    assert_eq!(svc.calls.get(), 3);
}

#[test]
fn first_granted_action_counts() {
    let cap = introspection_capability(&active(vec![grant(&["delete", "read"]), grant(&["create"])])).unwrap();
    assert_eq!(cap, Capability::Delete);
    let cap = introspection_capability(&active(vec![grant(&["fly", "read"])])).unwrap();
    assert_eq!(cap, Capability::Invalid);
}

#[test]
fn nothing_recognizable_gives_invalid() {
    assert_eq!(introspection_capability(&active(vec![])), Ok(Capability::Invalid));
    let no_access = Some(Introspection { active: true, access: None });
    assert_eq!(introspection_capability(&no_access), Ok(Capability::Invalid));
    let by_ref = active(vec![AccessGrant::Reference, grant(&["read"])]);
    assert_eq!(introspection_capability(&by_ref), Ok(Capability::Invalid));
    let no_actions = active(vec![AccessGrant::Value { actions: None }]);
    assert_eq!(introspection_capability(&no_actions), Ok(Capability::Invalid));
}

#[test]
fn access_types_in_grant_order() {
    let caps = get_access_type(&vec![grant(&["read", "write"]), grant(&[]), grant(&["update", "x"])]).unwrap();
    assert_eq!(caps, vec![Capability::Read, Capability::Write, Capability::Update, Capability::Invalid]);
    let err = get_access_type(&vec![grant(&["read"]), AccessGrant::Reference]);
    assert_eq!(err, Err(AuthError::UnknownAccessType));
}

#[test]
fn authorize_compares_with_the_bound_capability() {
    let op = Read { data: 3u8 };
    assert!(authorize(&op, Capability::Read));
    assert!(!authorize(&op, Capability::ReadAll));
    assert!(!authorize(&op, Capability::Invalid));
}

#[test]
fn filter_config_keeps_its_values() {
    let c = FilterConfig::build("http://localhost:8000/gnap".to_string(), "rs".to_string());
    assert_eq!(c.basepath, "http://localhost:8000/gnap");
    assert_eq!(c.rs_ref, "rs");
}
