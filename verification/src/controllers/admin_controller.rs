//! Administrator handlers' decision logic: the role gate they all run, the
//! priority names the dashboard offers, and the set-priority payload.

use crate::auth::{authorize, spec_role_matches, Forbidden};
use crate::models::ticket::Priority;
use crate::models::user::UserRole;
use crate::services::auth_service::Claims;
use vstd::prelude::*;

verus! {

/// What every administrator-only handler demands of the authenticated
/// claims before doing anything else.
pub fn require_admin(claims: &Claims) -> (r: Result<(), Forbidden>)
    ensures
        r is Ok <==> spec_role_matches(*claims, UserRole::Administrador),
{
    authorize(claims, UserRole::Administrador)
}

/// The priority names the dashboard offers, in ascending order.
pub fn priority_options() -> (r: Vec<String>)
    ensures
        r@.len() == 3,
        r@[0]@ == Priority::Baixa.spec_label(),
        r@[1]@ == Priority::Media.spec_label(),
        r@[2]@ == Priority::Alta.spec_label(),
{
    let mut options: Vec<String> = Vec::new();
    options.push(Priority::Baixa.label());
    options.push(Priority::Media.label());
    options.push(Priority::Alta.label());
    options
}

/// The body of a set-priority request.
#[derive(Debug, Clone)]
pub struct SetPriorityPayload {
    priority: String,
}

impl SetPriorityPayload {
    /// The priority name the payload carries.
    pub closed spec fn spec_priority(self) -> Seq<char> {
        self.priority@
    }

    pub fn new(priority: String) -> (r: Self)
        ensures
            r.spec_priority() == priority@,
    {
        Self { priority }
    }

    /// The priority the payload names — exactly one of the three display
    /// names; anything else is a bad request.
    pub fn resolve(&self) -> (r: Option<Priority>)
        ensures
            r == Priority::spec_parse_label(self.spec_priority()),
    {
        Priority::parse_label(self.priority.as_str())
    }
}

} // verus!
