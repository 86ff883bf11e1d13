use capabilities::vocabulary::{action_capability, Operation};
use capabilities::{CapToEnum, Capability, Create, Delete, DeleteAll, Read, ReadAll, Update, UpdateAll};

#[allow(dead_code)]
struct User {
    pub name: String,
}

#[test]
fn compare_to_enums() {
    let res = Capability::Read.eq(&Capability::Read);
    assert!(res)
}

#[test]
fn convert_struct_to_enum() {
    let user = User { name: "Kenneth".to_string() };
    let read_user = capabilities::Read::<User> { data: user };
    let c = read_user.into_enum();
    assert_eq!(c, Capability::Read);
    assert_ne!(c, Capability::Delete);
}

#[test]
fn every_carrier_is_bound_to_its_capability() {
    assert_eq!(Create { data: 1 }.into_enum(), Capability::Create);
    assert_eq!(Read { data: 1 }.into_enum(), Capability::Read);
    assert_eq!(Update { data: 1 }.into_enum(), Capability::Update);
    assert_eq!(Delete { data: 1 }.into_enum(), Capability::Delete);
    assert_eq!(ReadAll { data: 1 }.into_enum(), Capability::ReadAll);
    assert_eq!(UpdateAll { data: vec![1] }.into_enum(), Capability::UpdateAll);
    assert_eq!(DeleteAll { data: vec![1] }.into_enum(), Capability::DeleteAll);
}

#[test]
fn action_strings_map_onto_the_vocabulary() {
    assert_eq!(action_capability(&"read".to_string()), Capability::Read);
    assert_eq!(action_capability(&"create".to_string()), Capability::Create);
    assert_eq!(action_capability(&"write".to_string()), Capability::Write);
    assert_eq!(action_capability(&"update".to_string()), Capability::Update);
    assert_eq!(action_capability(&"delete".to_string()), Capability::Delete);
    assert_eq!(action_capability(&"Read".to_string()), Capability::Invalid);
    assert_eq!(action_capability(&"".to_string()), Capability::Invalid);
    assert_eq!(action_capability(&"readall".to_string()), Capability::Invalid);
}

#[test]
fn operation_tags_are_recognized() {
    for (name, op) in [
        ("Create", Operation::Create),
        ("Read", Operation::Read),
        ("Update", Operation::Update),
        ("Delete", Operation::Delete),
        ("ReadAll", Operation::ReadAll),
        ("UpdateAll", Operation::UpdateAll),
        ("DeleteAll", Operation::DeleteAll),
    ] {
        assert_eq!(Operation::from_name(&name.to_string()), Some(op));
        assert_eq!(op.name(), name);
    }
    assert_eq!(Operation::from_name(&"read".to_string()), None);
    assert_eq!(Operation::from_name(&"Write".to_string()), None);
    assert_eq!(Operation::Read.capability(), Capability::Read);
    assert_eq!(Operation::DeleteAll.capability(), Capability::DeleteAll);
    assert!(Operation::Update.has_id_variant());
    assert!(!Operation::ReadAll.has_id_variant());
}
