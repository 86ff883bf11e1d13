//! The runtime capability bridge: from a token introspection to the
//! capability attached to a request, and the check a dispatch makes with it.
use vstd::prelude::*;
use crate::vocabulary::{CapToEnum, Capability, action_capability, action_capability_spec};

verus! {

/// One access right of an introspected token.
#[derive(Debug)]
pub enum AccessGrant {
    /// A right given by value, with the actions it allows.
    Value { actions: Option<Vec<String>> },
    /// A right of another kind, such as one given by reference only.
    Reference,
}

/// What the authorization server said about a token.
#[derive(Debug)]
pub struct Introspection {
    pub active: bool,
    pub access: Option<Vec<AccessGrant>>,
}

/// Why a request was rejected.
#[derive(Debug, Clone, Copy, PartialEq, Eq, Structural)]
pub enum AuthError {
    /// The introspection call failed or did not answer.
    CannotIntrospect,
    /// The token is not active.
    InactiveToken,
    /// A grant is of a kind other than a value with actions.
    UnknownAccessType,
}

/// Why a dispatch did not produce a result.
#[derive(Debug)]
pub enum DispatchError<E> {
    /// The presented capability is not the one the operation requires.
    Unauthorized,
    /// The handler ran and failed.
    Failed(E),
}

/// Server configuration of the introspection bridge.
#[derive(Debug, Clone)]
pub struct FilterConfig {
    pub basepath: String,
    pub rs_ref: String,
}

impl FilterConfig {
    pub fn build(basepath: String, rs_ref: String) -> (r: Self)
        ensures
            r.basepath == basepath,
            r.rs_ref == rs_ref,
    {
        FilterConfig { basepath, rs_ref }
    }
}

pub open spec fn action_caps(actions: Seq<String>) -> Seq<Capability> {
    actions.map_values(|a: String| action_capability_spec(a@))
}

/// The capabilities one grant contributes; a grant without actions gives none.
pub open spec fn grant_caps(g: AccessGrant) -> Seq<Capability> {
    match g {
        AccessGrant::Value { actions: Some(a) } => action_caps(a@),
        _ => Seq::empty(),
    }
}

pub open spec fn all_values(list: Seq<AccessGrant>) -> bool {
    forall|k: int| 0 <= k < list.len() ==> #[trigger] list[k] is Value
}

/// The capabilities of a list of grants, in order.
pub open spec fn granted_caps(list: Seq<AccessGrant>) -> Seq<Capability>
    decreases list.len(),
{
    if list.len() == 0 {
        Seq::empty()
    } else {
        granted_caps(list.drop_last()) + grant_caps(list.last())
    }
}

/// The capability a request carries after introspection, or why it is
/// rejected. Of several granted capabilities the first counts; a token that
/// grants nothing recognizable carries `Invalid`.
pub open spec fn introspection_outcome(outcome: Option<Introspection>) -> Result<Capability, AuthError> {
    match outcome {
        None => Err(AuthError::CannotIntrospect),
        Some(ir) => if !ir.active {
            Err(AuthError::InactiveToken)
        } else {
            match ir.access {
                Some(list) => if all_values(list@) && granted_caps(list@).len() > 0 {
                    Ok(granted_caps(list@)[0])
                } else {
                    Ok(Capability::Invalid)
                },
                None => Ok(Capability::Invalid),
            }
        },
    }
}

/// Maps the grants of a token onto the vocabulary; a grant by reference is
/// an error.
pub fn get_access_type(access_list: &Vec<AccessGrant>) -> (r: Result<Vec<Capability>, AuthError>)
    ensures
        all_values(access_list@) ==> (r matches Ok(caps) && caps@ == granted_caps(access_list@)),
        !all_values(access_list@) ==> r == Err::<Vec<Capability>, AuthError>(AuthError::UnknownAccessType),
{
    let mut caps: Vec<Capability> = Vec::new();
    let n = access_list.len();
    for i in 0..n
        invariant
            n == access_list@.len(),
            forall|k: int| 0 <= k < i ==> #[trigger] access_list@[k] is Value,
            caps@ == granted_caps(access_list@.subrange(0, i as int)),
    {
        assert(access_list@.subrange(0, i + 1).drop_last() =~= access_list@.subrange(0, i as int));
        match &access_list[i] {
            AccessGrant::Value { actions } => {
                if let Some(actions) = actions {
                    let ghost before = caps@;
                    let m = actions.len();
                    for j in 0..m
                        invariant
                            m == actions@.len(),
                            caps@ == before + action_caps(actions@.subrange(0, j as int)),
                    {
                        caps.push(action_capability(&actions[j]));
                        assert(action_caps(actions@.subrange(0, j + 1)) =~= action_caps(
                            actions@.subrange(0, j as int),
                        ).push(action_capability_spec(actions@[j as int]@)));
                    }
                    assert(actions@.subrange(0, m as int) =~= actions@);
                } else {
                    assert(caps@ =~= caps@ + Seq::<Capability>::empty());
                }
            },
            AccessGrant::Reference => {
                return Err(AuthError::UnknownAccessType);
            },
        }
    }
    assert(access_list@.subrange(0, n as int) =~= access_list@);
    Ok(caps)
}

/// Decides what an introspection outcome means for the request: the
/// capability to attach, or the rejection. `None` stands for a failed
/// introspection call.
pub fn introspection_capability(outcome: &Option<Introspection>) -> (r: Result<Capability, AuthError>)
    ensures
        r == introspection_outcome(*outcome),
{
    match outcome {
        None => Err(AuthError::CannotIntrospect),
        Some(ir) => {
            if !ir.active {
                return Err(AuthError::InactiveToken);
            }
            match &ir.access {
                None => Ok(Capability::Invalid),
                Some(list) => match get_access_type(list) {
                    Ok(caps) => if caps.len() > 0 {
                        Ok(caps[0])
                    } else {
                        Ok(Capability::Invalid)
                    },
                    Err(_) => Ok(Capability::Invalid),
                },
            }
        },
    }
}

/// The check a dispatch wrapper makes before it runs a handler: the
/// capability presented must be the one the operation's carrier is bound to.
pub fn authorize<Op: CapToEnum>(op: &Op, presented: Capability) -> (r: bool)
    ensures
        r == (presented == op.bound_capability()),
{
    op.into_enum() == presented
}

} // verus!
