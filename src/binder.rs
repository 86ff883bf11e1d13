//! The handler pass: binds an annotated handler function to the interface it
//! implements, and the registry that the bindings are resolved against.
use vstd::prelude::*;
use crate::error::GenError;
use crate::meta::{AnnotatedItem, HandlerFn, Lit, MetaItem, NameValue, is_option, option_str, parse_metavalue_for_type_ident};
use crate::naming::{derive_interface_name, derived_name, id_interface_name};
use crate::synth::{Interface, InterfaceView, interface_view, views};
use crate::vocabulary::{Operation, has_id_variant, operation_named, text_is};

verus! {

/// How a handler's dispatch wrapper and `perform` implementation look.
#[derive(Debug, Clone, Copy, PartialEq, Eq, Structural)]
pub enum HandlerShape {
    /// One entity in, the entity out.
    Plain,
    /// An identifier alias in, the entity out.
    IdKeyed,
    /// No input, every entity out.
    ReadAll,
    /// A collection of entities in, nothing out.
    UpdateAll,
    /// A collection of entities in, nothing out.
    DeleteAll,
    /// An entity or its identifier in, nothing out.
    NoResult,
}

pub open spec fn shape_of(op: Operation, keyed: bool) -> HandlerShape {
    match op {
        Operation::Create => HandlerShape::Plain,
        Operation::Read => if keyed {
            HandlerShape::IdKeyed
        } else {
            HandlerShape::Plain
        },
        Operation::ReadAll => HandlerShape::ReadAll,
        Operation::UpdateAll => HandlerShape::UpdateAll,
        Operation::DeleteAll => HandlerShape::DeleteAll,
        _ => HandlerShape::NoResult,
    }
}

/// A handler bound to the interface it implements.
#[derive(Debug)]
pub struct HandlerBinding {
    pub handler: HandlerFn,
    pub operation: Operation,
    pub entity: String,
    /// Whether the handler operates by identifier.
    pub keyed: bool,
    /// The entity, or the identifier type that the `id` option names.
    pub key_type: String,
    /// The name of the interface the handler implements.
    pub interface: String,
}

/// The interface a binding must find among the generated ones.
pub open spec fn binding_target(b: HandlerBinding) -> InterfaceView {
    interface_view(b.operation, b.keyed, b.entity@)
}

impl HandlerBinding {
    pub fn shape(&self) -> (r: HandlerShape)
        ensures
            r == shape_of(self.operation, self.keyed),
    {
        match self.operation {
            Operation::Create => HandlerShape::Plain,
            Operation::Read => if self.keyed {
                HandlerShape::IdKeyed
            } else {
                HandlerShape::Plain
            },
            Operation::ReadAll => HandlerShape::ReadAll,
            Operation::UpdateAll => HandlerShape::UpdateAll,
            Operation::DeleteAll => HandlerShape::DeleteAll,
            _ => HandlerShape::NoResult,
        }
    }
}

/// The name an argument gives: a bare name, or the path of an option or list.
pub open spec fn arg_name(m: MetaItem) -> Option<Seq<char>> {
    match m {
        MetaItem::Path(p) => Some(p@),
        MetaItem::NameValue(nv) => Some(nv.key@),
        MetaItem::List(p) => Some(p@),
        MetaItem::Literal(_) => None,
    }
}

/// Position of the capability argument; the entity follows it. With three
/// arguments the last is the `id` option.
pub open spec fn capability_position(n: int) -> int {
    if n == 3 {
        0
    } else {
        n - 2
    }
}

/// The `id = "..."` option of a handler annotation: the third argument.
pub open spec fn handler_id_option(args: Seq<MetaItem>) -> Option<NameValue> {
    if args.len() == 3 && is_option(args[2], "id"@) {
        Some(args[2]->NameValue_0)
    } else {
        None
    }
}

/// The outcome of the handler pass on `args` and `item`.
pub open spec fn binding_of(args: Seq<MetaItem>, item: AnnotatedItem, r: Result<HandlerBinding, GenError>) -> bool {
    let c = capability_position(args.len() as int);
    let id = handler_id_option(args);
    if args.len() == 0 {
        r is Err && r->Err_0 is MissingArguments
    } else if !(item is Function) {
        r is Err && r->Err_0 is NotAFunction
    } else if args.len() == 1 {
        r is Err && r->Err_0 is MissingCapability
    } else if arg_name(args[c]) is None || arg_name(args[c + 1]) is None {
        r is Err && r->Err_0 is LiteralInsteadOfName
    } else {
        let cap = arg_name(args[c])->Some_0;
        let entity = arg_name(args[c + 1])->Some_0;
        if operation_named(cap) is None {
            r matches Err(GenError::UnknownCapability(n)) && n@ == cap
        } else {
            let op = operation_named(cap)->Some_0;
            if id is Some && option_str(id->Some_0) is None {
                r is Err && r->Err_0 is MalformedIdType
            } else if id is Some && !has_id_variant(op) {
                r matches Err(GenError::NoSuchInterface(n)) && n@ == id_interface_name(op, entity)
            } else {
                r matches Ok(b) && b.handler == item->Function_0 && b.operation == op && b.entity@ == entity
                    && b.keyed == id is Some && b.key_type@ == (if id is Some {
                    option_str(id->Some_0)->Some_0
                } else {
                    entity
                }) && b.interface@ == derived_name(op, id is Some, entity)
            }
        }
    }
}

/// The name an argument gives, as in `arg_name`.
fn name_of_arg(m: &MetaItem) -> (r: Option<&String>)
    ensures
        r matches Some(s) ==> arg_name(*m) == Some(s@),
        r is None ==> arg_name(*m) is None,
{
    match m {
        MetaItem::Path(p) => Some(p),
        MetaItem::NameValue(nv) => Some(&nv.key),
        MetaItem::List(p) => Some(p),
        MetaItem::Literal(_) => None,
    }
}

/// The handler pass: `capability(Tag, Entity)` or
/// `capability(Tag, Entity, id = "Type")` on a function.
pub fn capability(attr_args: &Vec<MetaItem>, item: AnnotatedItem) -> (r: Result<HandlerBinding, GenError>)
    ensures
        binding_of(attr_args@, item, r),
{
    let n = attr_args.len();
    if n == 0 {
        return Err(GenError::MissingArguments);
    }
    let handler = match item {
        AnnotatedItem::Function(f) => f,
        _ => {
            return Err(GenError::NotAFunction);
        },
    };
    if n == 1 {
        return Err(GenError::MissingCapability);
    }
    let c: usize = if n == 3 {
        0
    } else {
        n - 2
    };
    let id_option: Option<&NameValue> = if n == 3 {
        match &attr_args[2] {
            MetaItem::NameValue(nv) => if text_is(&nv.key, "id") {
                Some(nv)
            } else {
                None
            },
            _ => None,
        }
    } else {
        None
    };
    assert(id_option matches Some(nv) ==> handler_id_option(attr_args@) == Some(*nv));
    assert(id_option is None ==> handler_id_option(attr_args@) is None);
    let (cap, entity) = match (name_of_arg(&attr_args[c]), name_of_arg(&attr_args[c + 1])) {
        (Some(cap), Some(entity)) => (cap, entity),
        _ => {
            return Err(GenError::LiteralInsteadOfName);
        },
    };
    let op = match Operation::from_name(cap) {
        Some(op) => op,
        None => {
            return Err(GenError::UnknownCapability(cap.clone()));
        },
    };
    let key_type = match parse_metavalue_for_type_ident(id_option, entity) {
        Some(t) => t,
        None => {
            return Err(GenError::MalformedIdType);
        },
    };
    let keyed = id_option.is_some();
    if keyed && !op.has_id_variant() {
        return Err(GenError::NoSuchInterface(derive_interface_name(op, true, entity)));
    }
    let interface = derive_interface_name(op, keyed, entity);
    Ok(HandlerBinding { handler, operation: op, entity: entity.clone(), keyed, key_type, interface })
}

/// No two interfaces share a name.
pub open spec fn names_distinct(s: Seq<InterfaceView>) -> bool {
    forall|i: int, j: int| 0 <= i < j < s.len() ==> #[trigger] s[i].name != #[trigger] s[j].name
}

/// The interfaces generated so far in one compilation unit; every name is
/// taken at most once.
pub struct Registry {
    interfaces: Vec<Interface>,
}

impl View for Registry {
    type V = Seq<InterfaceView>;

    closed spec fn view(&self) -> Seq<InterfaceView> {
        views(self.interfaces@)
    }
}

/// Whether `name` is taken in `s`.
pub open spec fn name_taken(s: Seq<InterfaceView>, name: Seq<char>) -> bool {
    exists|k: int| 0 <= k < s.len() && #[trigger] s[k].name == name
}

/// Whether `name` is taken in `s`.
fn find_name(s: &Vec<Interface>, name: &String) -> (r: bool)
    ensures
        r == name_taken(views(s@), name@),
{
    let mut k: usize = 0;
    while k < s.len()
        invariant
            k <= s@.len(),
            forall|j: int| 0 <= j < k ==> #[trigger] views(s@)[j].name != name@,
        decreases s@.len() - k,
    {
        if s[k].name.eq(name) {
            assert(views(s@)[k as int].name == name@);
            return true;
        }
        k = k + 1;
    }
    false
}

/// Whether the name of `s[i]` is taken by an earlier element of `s`.
fn find_name_before(s: &Vec<Interface>, i: usize) -> (r: bool)
    requires
        i < s@.len(),
    ensures
        r == exists|k: int| 0 <= k < i && #[trigger] views(s@)[k].name == s@[i as int].name@,
{
    let mut k: usize = 0;
    while k < i
        invariant
            k <= i < s@.len(),
            forall|j: int| 0 <= j < k ==> #[trigger] views(s@)[j].name != s@[i as int].name@,
        decreases i - k,
    {
        if s[k].name.eq(&s[i].name) {
            assert(views(s@)[k as int].name == s@[i as int].name@);
            return true;
        }
        k = k + 1;
    }
    false
}

impl Registry {
    /// Every registered name is taken once.
    pub open spec fn wf(&self) -> bool {
        names_distinct(self@)
    }

    /// A registry with nothing registered.
    pub fn new() -> (r: Registry)
        ensures
            r@ == Seq::<InterfaceView>::empty(),
            r.wf(),
    {
        Registry { interfaces: Vec::new() }
    }

    /// Adds a batch of interfaces, or, when one of their names is taken
    /// already or twice in the batch, reports that name and adds nothing.
    pub fn register(&mut self, batch: Vec<Interface>) -> (r: Result<(), GenError>)
        requires
            old(self).wf(),
        ensures
            final(self).wf(),
            (r is Ok) == names_distinct(old(self)@ + views(batch@)),
            r is Ok ==> final(self)@ == old(self)@ + views(batch@),
            r is Err ==> final(self)@ == old(self)@,
            r matches Err(e) ==> (e matches GenError::NameCollision(n) && name_taken(
                old(self)@ + views(batch@),
                n@,
            )),
    {
        let ghost all = self@ + views(batch@);
        let ghost len = self@.len();
        let m = batch.len();
        for i in 0..m
            invariant
                len == self@.len(),
                m == batch@.len(),
                all == self@ + views(batch@),
                names_distinct(self@),
                forall|a: int, b: int| 0 <= a < b < len + i ==> #[trigger] all[a].name != #[trigger] all[b].name,
        {
            let taken_before = find_name(&self.interfaces, &batch[i].name);
            let taken_in_batch = find_name_before(&batch, i);
            if taken_before || taken_in_batch {
                proof {
                    if taken_before {
                        let a = choose|a: int| 0 <= a < len && #[trigger] self@[a].name == batch@[i as int].name@;
                        assert(all[a].name == all[len + i].name);
                    } else {
                        let a = choose|a: int| 0 <= a < i && #[trigger] views(batch@)[a].name == batch@[i as int].name@;
                        assert(all[len + a].name == all[len + i].name);
                    }
                    assert(all[len + i].name == batch@[i as int].name@);
                }
                return Err(GenError::NameCollision(batch[i].name.clone()));
            }
            assert forall|a: int, b: int| 0 <= a < b < len + i + 1 implies #[trigger] all[a].name != #[trigger] all[b].name by {
                if b == len + i {
                    if a < len {
                        assert(self@[a].name == all[a].name);
                    } else {
                        assert(views(batch@)[a - len].name == all[a].name);
                    }
                }
            }
        }
        let mut batch = batch;
        let ghost before = self.interfaces@;
        let ghost added = batch@;
        self.interfaces.append(&mut batch);
        assert(views(self.interfaces@) =~= views(before) + views(added));
        Ok(())
    }

    /// The registered interface a handler binding implements.
    pub fn resolve(&self, binding: &HandlerBinding) -> (r: Result<&Interface, GenError>)
        ensures
            r matches Ok(i) ==> i@ == binding_target(*binding),
            (r is Ok) == self@.contains(binding_target(*binding)),
            r matches Err(e) ==> (e matches GenError::NoSuchInterface(n) && n@ == binding.interface@),
    {
        let ghost target = binding_target(*binding);
        let name = derive_interface_name(binding.operation, binding.keyed, &binding.entity);
        let mut k: usize = 0;
        while k < self.interfaces.len()
            invariant
                k <= self@.len(),
                name@ == target.name,
                target == binding_target(*binding),
                forall|j: int| 0 <= j < k ==> #[trigger] self@[j] != target,
            decreases self@.len() - k,
        {
            let i = &self.interfaces[k];
            if i.name.eq(&name) && i.entity.eq(&binding.entity) && i.operation == binding.operation
                && i.keyed == binding.keyed {
                assert(self@[k as int] == target);
                return Ok(i);
            }
            k = k + 1;
        }
        Err(GenError::NoSuchInterface(binding.interface.clone()))
    }
}

} // verus!
