//! The arguments of an annotation, and the options read from them.
use vstd::prelude::*;
use crate::error::GenError;
use crate::vocabulary::text_is;

verus! {

/// A literal in an annotation.
#[derive(Debug)]
pub enum Lit {
    /// A string literal, with its value.
    Str(String),
    /// Any other literal, with its source text.
    Other(String),
}

/// A `key = literal` option.
#[derive(Debug)]
pub struct NameValue {
    pub key: String,
    pub value: Lit,
}

/// One argument of an annotation.
#[derive(Debug)]
pub enum MetaItem {
    /// A bare name, such as a capability tag or a type.
    Path(String),
    /// A `key = literal` option.
    NameValue(NameValue),
    /// A `name(...)` list, by its name.
    List(String),
    /// A bare literal.
    Literal(Lit),
}

/// A named field of an entity and the text of its declared type.
#[derive(Debug)]
pub struct Field {
    pub name: String,
    pub ty: String,
}

/// An entity: its name and its fields in declaration order.
#[derive(Debug)]
pub struct EntityDescriptor {
    pub name: String,
    pub fields: Vec<Field>,
}

/// A handler function: its name and the pattern of its first parameter.
#[derive(Debug)]
pub struct HandlerFn {
    pub name: String,
    pub param: Option<String>,
}

/// The item an annotation is attached to.
#[derive(Debug)]
pub enum AnnotatedItem {
    Struct(EntityDescriptor),
    Function(HandlerFn),
    Other,
}

/// Whether an argument is the option `key = ...`.
pub open spec fn is_option(m: MetaItem, key: Seq<char>) -> bool {
    m is NameValue && m->NameValue_0.key@ == key
}

/// The last `key = ...` option among the arguments.
pub open spec fn last_option(args: Seq<MetaItem>, key: Seq<char>) -> Option<NameValue>
    decreases args.len(),
{
    if args.len() == 0 {
        None
    } else if is_option(args.last(), key) {
        Some(args.last()->NameValue_0)
    } else {
        last_option(args.drop_last(), key)
    }
}

/// The string value of an option, when it is a string literal.
pub open spec fn option_str(nv: NameValue) -> Option<Seq<char>> {
    match nv.value {
        Lit::Str(s) => Some(s@),
        Lit::Other(_) => None,
    }
}

/// The declared type of the last field named `name`.
pub open spec fn field_type(fields: Seq<Field>, name: Seq<char>) -> Option<Seq<char>>
    decreases fields.len(),
{
    if fields.len() == 0 {
        None
    } else if fields.last().name@ == name {
        Some(fields.last().ty@)
    } else {
        field_type(fields.drop_last(), name)
    }
}

/// Default name of the service container's storage field.
pub open spec fn default_field_name() -> Seq<char> {
    "con"@
}

/// The storage field name that an optional `name = "..."` option chooses.
pub open spec fn storage_field_name(field: Option<NameValue>) -> Seq<char> {
    match field {
        Some(nv) => match nv.value {
            Lit::Str(s) => s@,
            Lit::Other(_) => default_field_name(),
        },
        None => default_field_name(),
    }
}

/// Finds the last `key = ...` option.
pub fn find_last_option<'a>(args: &'a Vec<MetaItem>, key: &str) -> (r: Option<&'a NameValue>)
    ensures
        r matches Some(nv) ==> last_option(args@, key@) == Some(*nv),
        r is None ==> last_option(args@, key@) is None,
{
    let mut i: usize = args.len();
    assert(args@.subrange(0, i as int) =~= args@);
    while i > 0
        invariant
            i <= args@.len(),
            last_option(args@.subrange(0, i as int), key@) == last_option(args@, key@),
        decreases i,
    {
        assert(args@.subrange(0, i as int).drop_last() =~= args@.subrange(0, i - 1));
        i = i - 1;
        if let MetaItem::NameValue(nv) = &args[i] {
            if text_is(&nv.key, key) {
                return Some(nv);
            }
        }
    }
    None
}

/// The `name = "..."` option of a service annotation.
pub fn parse_service_field_for_name(attr_args: &Vec<MetaItem>) -> (r: Option<&NameValue>)
    ensures
        r matches Some(nv) ==> last_option(attr_args@, "name"@) == Some(*nv),
        r is None ==> last_option(attr_args@, "name"@) is None,
{
    find_last_option(attr_args, "name")
}

/// The `id = "..."` option of an annotation.
pub fn parse_field_args_for_id(attr_args: &Vec<MetaItem>) -> (r: Option<&NameValue>)
    ensures
        r matches Some(nv) ==> last_option(attr_args@, "id"@) == Some(*nv),
        r is None ==> last_option(attr_args@, "id"@) is None,
{
    find_last_option(attr_args, "id")
}

/// Resolves the declared identifier field to its type: `None` when no
/// identifier is declared (or it is not given as a string), an error naming
/// the field when the entity has no such field.
pub fn parse_metavalue_for_type(
    id_metavalue: Option<&NameValue>,
    item_struct: &EntityDescriptor,
) -> (r: Result<Option<String>, GenError>)
    ensures
        id_metavalue is None ==> r matches Ok(None),
        id_metavalue matches Some(nv) ==> match option_str(*nv) {
            None => r matches Ok(None),
            Some(f) => match field_type(item_struct.fields@, f) {
                Some(t) => (r matches Ok(Some(ty)) && ty@ == t),
                None => (r matches Err(GenError::MissingIdField(n)) && n@ == f),
            },
        },
{
    match id_metavalue {
        None => Ok(None),
        Some(nv) => match &nv.value {
            Lit::Other(_) => Ok(None),
            Lit::Str(field) => match find_field_type(&item_struct.fields, field) {
                Some(ty) => Ok(Some(ty.clone())),
                None => Err(GenError::MissingIdField(field.clone())),
            },
        },
    }
}

/// Finds the declared type of the last field named `name`.
pub fn find_field_type<'a>(fields: &'a Vec<Field>, name: &String) -> (r: Option<&'a String>)
    ensures
        r matches Some(t) ==> field_type(fields@, name@) == Some(t@),
        r is None ==> field_type(fields@, name@) is None,
{
    let mut i: usize = fields.len();
    assert(fields@.subrange(0, i as int) =~= fields@);
    while i > 0
        invariant
            i <= fields@.len(),
            field_type(fields@.subrange(0, i as int), name@) == field_type(fields@, name@),
        decreases i,
    {
        assert(fields@.subrange(0, i as int).drop_last() =~= fields@.subrange(0, i - 1));
        i = i - 1;
        if fields[i].name.eq(name) {
            return Some(&fields[i].ty);
        }
    }
    None
}

/// The type a handler operates on: the entity itself without an `id` option,
/// the identifier type it names with one, and nothing when that is not a
/// string literal.
pub fn parse_metavalue_for_type_ident(
    id_metavalue: Option<&NameValue>,
    item_struct: &String,
) -> (r: Option<String>)
    ensures
        id_metavalue is None ==> (r matches Some(t) && t@ == item_struct@),
        id_metavalue matches Some(nv) ==> match option_str(*nv) {
            Some(v) => (r matches Some(t) && t@ == v),
            None => r is None,
        },
{
    match id_metavalue {
        None => Some(item_struct.clone()),
        Some(nv) => match &nv.value {
            Lit::Str(v) => Some(v.clone()),
            Lit::Other(_) => None,
        },
    }
}

/// The type an entity's operations key on: the entity itself, or its
/// identifier alias `entity + "Id"` when an identifier is declared.
pub fn get_id_type(id_metavalue: Option<&NameValue>, item_struct: &String) -> (r: String)
    ensures
        id_metavalue is None ==> r@ == item_struct@,
        id_metavalue is Some ==> r@ == crate::naming::id_alias_name(item_struct@),
{
    match id_metavalue {
        None => item_struct.clone(),
        Some(_) => crate::naming::derive_id_alias_name(item_struct),
    }
}

/// The storage field name of a service container: the `name` option's string,
/// or `con`.
pub fn get_ident_from_field_name(field_name: Option<&NameValue>) -> (r: String)
    ensures
        r@ == storage_field_name(match field_name {
            Some(nv) => Some(*nv),
            None => None,
        }),
{
    match field_name {
        Some(nv) => match &nv.value {
            Lit::Str(s) => s.clone(),
            Lit::Other(_) => String::from_str("con"),
        },
        None => String::from_str("con"),
    }
}

} // verus!
