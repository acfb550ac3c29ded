//! Which requests a registered service may make.
//!
//! A service's permissions are searched in order for the first one on the
//! requested interface; that permission alone decides. `Get` needs read access,
//! every other action needs write access, and `ReadWrite` gives both.

use vstd::prelude::*;
use crate::shared::{Action, HandlerType, Permission, PermissionState};

verus! {

/// Whether a permission state allows an action.
pub open spec fn state_permits(state: PermissionState, action: Action) -> bool {
    match action {
        Action::Get => state == PermissionState::Read || state == PermissionState::ReadWrite,
        _ => state == PermissionState::Write || state == PermissionState::ReadWrite,
    }
}

/// The first permission of `perms` on `service`, if any: the one that decides.
pub open spec fn governing_permission(perms: Seq<Permission>, service: HandlerType) -> Option<Permission>
    decreases perms.len(),
{
    if perms.len() == 0 {
        None
    } else if perms[0].service == service {
        Some(perms[0])
    } else {
        governing_permission(perms.drop_first(), service)
    }
}

/// The answer to a request.
#[derive(Debug, Clone, Copy, PartialEq, Eq, Structural)]
pub enum AuthorizationDecision {
    /// The governing permission allows the action: the requester is told `true`.
    Granted,
    /// The governing permission does not allow the action: the requester is told `false`.
    Refused,
    /// No permission names the interface: the request fails and nothing is answered.
    NoPermission,
}

/// The decision on `action` against `service` for a service holding `perms`.
pub open spec fn decide(perms: Seq<Permission>, service: HandlerType, action: Action) -> AuthorizationDecision {
    match governing_permission(perms, service) {
        None => AuthorizationDecision::NoPermission,
        Some(p) => if state_permits(p.state, action) {
            AuthorizationDecision::Granted
        } else {
            AuthorizationDecision::Refused
        },
    }
}

/// Whether `state` allows `action`.
pub fn permits(state: PermissionState, action: Action) -> (r: bool)
    ensures
        r == state_permits(state, action),
{
    match action {
        Action::Get => match state {
            PermissionState::Read | PermissionState::ReadWrite => true,
            PermissionState::Write => false,
        },
        Action::Put | Action::Pop | Action::Edit => match state {
            PermissionState::Write | PermissionState::ReadWrite => true,
            PermissionState::Read => false,
        },
    }
}

/// Whether `i` is the first position of a permission on `service`.
pub open spec fn is_first_on(perms: Seq<Permission>, service: HandlerType, i: int) -> bool {
    &&& 0 <= i < perms.len()
    &&& perms[i].service == service
    &&& forall|j: int| 0 <= j < i ==> perms[j].service != service
}

/// The governing permission is the one at the first position naming the interface.
pub proof fn lemma_governing_is_first(perms: Seq<Permission>, service: HandlerType)
    ensures
        match governing_permission(perms, service) {
            Some(p) => exists|i: int| is_first_on(perms, service, i) && perms[i] == p,
            None => forall|i: int| 0 <= i < perms.len() ==> perms[i].service != service,
        },
    decreases perms.len(),
{
    if perms.len() > 0 {
        let rest = perms.drop_first();
        lemma_governing_is_first(rest, service);
        if perms[0].service == service {
            assert(is_first_on(perms, service, 0));
        } else {
            match governing_permission(rest, service) {
                Some(p) => {
                    let k = choose|k: int| is_first_on(rest, service, k) && rest[k] == p;
                    assert(perms[k + 1] == rest[k]);
                    assert forall|j: int| 0 <= j < k + 1 implies perms[j].service != service by {
                        if j > 0 {
                            assert(perms[j] == rest[j - 1]);
                        }
                    }
                    assert(is_first_on(perms, service, k + 1));
                },
                None => {
                    assert forall|i: int| 0 <= i < perms.len() implies perms[i].service != service by {
                        if i > 0 {
                            assert(perms[i] == rest[i - 1]);
                        }
                    }
                },
            }
        }
    }
}

/// There is at most one first position.
proof fn lemma_first_unique(perms: Seq<Permission>, service: HandlerType, i: int, k: int)
    requires
        is_first_on(perms, service, i),
        is_first_on(perms, service, k),
    ensures
        i == k,
{
    if i < k {
        assert(perms[i].service != service);
    } else if k < i {
        assert(perms[k].service != service);
    }
}

/// The index of the permission that decides requests on `service`.
pub fn find_permission(perms: &Vec<Permission>, service: HandlerType) -> (r: Option<usize>)
    ensures
        match r {
            None => governing_permission(perms@, service) is None,
            Some(i) => i < perms@.len() && governing_permission(perms@, service) == Some(perms@[i as int]),
        },
{
    let mut i: usize = 0;
    while i < perms.len()
        invariant
            i <= perms@.len(),
            forall|j: int| 0 <= j < i ==> perms@[j].service != service,
        decreases perms@.len() - i,
    {
        if perms[i].eq(&service) {
            proof {
                lemma_governing_is_first(perms@, service);
                assert(is_first_on(perms@, service, i as int));
                if let Some(p) = governing_permission(perms@, service) {
                    let k = choose|k: int| is_first_on(perms@, service, k) && perms@[k] == p;
                    lemma_first_unique(perms@, service, i as int, k);
                }
            }
            return Some(i);
        }
        i = i + 1;
    }
    proof {
        lemma_governing_is_first(perms@, service);
        if let Some(p) = governing_permission(perms@, service) {
            let k = choose|k: int| is_first_on(perms@, service, k) && perms@[k] == p;
            assert(perms@[k].service != service);
        }
    }
    None
}

/// Decides a request of `action` on `service` by a service holding `perms`.
pub fn authorize_request(perms: &Vec<Permission>, service: HandlerType, action: Action) -> (r: AuthorizationDecision)
    ensures
        r == decide(perms@, service, action),
{
    match find_permission(perms, service) {
        None => AuthorizationDecision::NoPermission,
        Some(i) => if permits(perms[i].state, action) {
            AuthorizationDecision::Granted
        } else {
            AuthorizationDecision::Refused
        },
    }
}

/// `ReadWrite` allows every action, `Read` allows `Get` alone, and `Write` allows
/// every action but `Get`; so `ReadWrite` allows whatever any state allows.
pub proof fn lemma_permission_states(state: PermissionState, action: Action)
    ensures
        state_permits(state, action) ==> state_permits(PermissionState::ReadWrite, action),
        state_permits(PermissionState::ReadWrite, action),
        state_permits(PermissionState::Read, action) <==> action == Action::Get,
        state_permits(PermissionState::Write, action) <==> action != Action::Get,
{
}

/// A request is granted exactly when the first permission naming the interface
/// allows the action.
pub proof fn lemma_granted_iff_first_match_permits(perms: Seq<Permission>, service: HandlerType, action: Action)
    ensures
        decide(perms, service, action) == AuthorizationDecision::Granted <==> exists|i: int|
            is_first_on(perms, service, i) && state_permits(perms[i].state, action),
{
    lemma_governing_is_first(perms, service);
    if exists|i: int| is_first_on(perms, service, i) && state_permits(perms[i].state, action) {
        let i = choose|i: int| is_first_on(perms, service, i) && state_permits(perms[i].state, action);
        match governing_permission(perms, service) {
            Some(p) => {
                let k = choose|k: int| is_first_on(perms, service, k) && perms[k] == p;
                lemma_first_unique(perms, service, i, k);
            },
            None => {
                assert(perms[i].service != service);
            },
        }
    }
}

/// A request is refused without an answer (no permission) exactly when no permission
/// names the interface.
pub proof fn lemma_no_permission_iff_unnamed(perms: Seq<Permission>, service: HandlerType, action: Action)
    ensures
        decide(perms, service, action) == AuthorizationDecision::NoPermission <==> forall|i: int|
            0 <= i < perms.len() ==> perms[i].service != service,
{
    lemma_governing_is_first(perms, service);
    if let Some(p) = governing_permission(perms, service) {
        let k = choose|k: int| is_first_on(perms, service, k) && perms[k] == p;
        assert(perms[k].service == service);
    }
}

/// Permissions on other interfaces never change a decision: only the permissions on
/// the requested interface count.
pub proof fn lemma_other_interfaces_irrelevant(perms: Seq<Permission>, service: HandlerType, action: Action)
    ensures
        decide(perms, service, action) == decide(perms.filter(|p: Permission| p.service == service), service, action),
    decreases perms.len(),
{
    let f = |p: Permission| p.service == service;
    if perms.len() > 0 {
        let rest = perms.drop_first();
        lemma_other_interfaces_irrelevant(rest, service, action);
        assert(perms =~= seq![perms[0]] + rest);
        rest.lemma_filter_prepend(perms[0], f);
        if perms[0].service == service {
            assert((seq![perms[0]] + rest.filter(f))[0] == perms[0]);
        } else {
            assert(Seq::<Permission>::empty() + rest.filter(f) =~= rest.filter(f));
        }
    } else {
        assert(perms.filter(f) =~= Seq::<Permission>::empty()) by {
            reveal_with_fuel(Seq::filter, 1);
        }
    }
}

/// Only the first permission on an interface counts: appending permissions never
/// changes a decision that an existing permission already makes.
pub proof fn lemma_first_match_wins(perms: Seq<Permission>, extra: Seq<Permission>, service: HandlerType, action: Action)
    requires
        decide(perms, service, action) != AuthorizationDecision::NoPermission,
    ensures
        decide(perms + extra, service, action) == decide(perms, service, action),
    decreases perms.len(),
{
    if perms.len() > 0 && perms[0].service != service {
        lemma_first_match_wins(perms.drop_first(), extra, service, action);
        assert((perms + extra).drop_first() =~= perms.drop_first() + extra);
    }
}

} // verus!
