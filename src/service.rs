//! The service pass: the backing resource and storage field of the
//! generic service container.
use vstd::prelude::*;
use crate::error::GenError;
use crate::meta::{MetaItem, get_ident_from_field_name, last_option, parse_service_field_for_name, storage_field_name};
use crate::vocabulary::text_is;

verus! {

/// The backing resource types a service container can hold.
#[derive(Debug, Clone, Copy, PartialEq, Eq, Structural)]
pub enum Backing {
    SqliteDb,
    PostgresDb,
    WebService,
}

pub open spec fn backing_named(name: Seq<char>) -> Option<Backing> {
    if name == "SqliteDb"@ {
        Some(Backing::SqliteDb)
    } else if name == "PostgresDb"@ {
        Some(Backing::PostgresDb)
    } else if name == "WebService"@ {
        Some(Backing::WebService)
    } else {
        None
    }
}

/// The service container to generate: its backing resource and the name of
/// the field that holds it.
#[derive(Debug)]
pub struct ServiceDef {
    pub backing: Backing,
    pub field: String,
}

/// The outcome of the service pass on `args`.
pub open spec fn service_of(args: Seq<MetaItem>, r: Result<ServiceDef, GenError>) -> bool {
    if args.len() == 0 {
        r is Err && r->Err_0 is MissingServiceType
    } else {
        match args[0] {
            MetaItem::Path(p) => match backing_named(p@) {
                Some(b) => (r matches Ok(d) && d.backing == b && d.field@ == storage_field_name(
                    last_option(args, "name"@),
                )),
                None => (r matches Err(GenError::UnsupportedServiceType(n)) && n@ == p@),
            },
            MetaItem::NameValue(nv) => (r matches Err(GenError::ServiceTypeOrder(n)) && n@ == nv.key@),
            MetaItem::List(p) => (r matches Err(GenError::ServiceTypeOrder(n)) && n@ == p@),
            MetaItem::Literal(_) => r is Err && r->Err_0 is LiteralServiceType,
        }
    }
}

impl Backing {
    pub fn from_name(name: &String) -> (r: Option<Backing>)
        ensures
            r == backing_named(name@),
    {
        if text_is(name, "SqliteDb") {
            Some(Backing::SqliteDb)
        } else if text_is(name, "PostgresDb") {
            Some(Backing::PostgresDb)
        } else if text_is(name, "WebService") {
            Some(Backing::WebService)
        } else {
            None
        }
    }

    pub fn is_database(&self) -> (r: bool)
        ensures
            r == (*self != Backing::WebService),
    {
        match self {
            Backing::WebService => false,
            _ => true,
        }
    }
}

/// The service pass: `service(Backing)` or `service(Backing, name = "field")`.
pub fn service(attr_args: &Vec<MetaItem>) -> (r: Result<ServiceDef, GenError>)
    ensures
        service_of(attr_args@, r),
{
    if attr_args.len() == 0 {
        return Err(GenError::MissingServiceType);
    }
    let backing = match &attr_args[0] {
        MetaItem::Path(p) => match Backing::from_name(p) {
            Some(b) => b,
            None => {
                return Err(GenError::UnsupportedServiceType(p.clone()));
            },
        },
        MetaItem::NameValue(nv) => {
            return Err(GenError::ServiceTypeOrder(nv.key.clone()));
        },
        MetaItem::List(p) => {
            return Err(GenError::ServiceTypeOrder(p.clone()));
        },
        MetaItem::Literal(_) => {
            return Err(GenError::LiteralServiceType);
        },
    };
    let field = get_ident_from_field_name(parse_service_field_for_name(attr_args));
    Ok(ServiceDef { backing, field })
}

} // verus!
