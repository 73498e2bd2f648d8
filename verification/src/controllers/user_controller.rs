//! Registration: turning a submitted form into the user record to store.

use crate::models::user::{User, UserRole};
use crate::services::auth_service::{bcrypt_verifies, password_hash};
use vstd::prelude::*;

verus! {

/// A registration form submission.
#[derive(Debug, Clone)]
pub struct RegisterPayload {
    user_name: String,
    user_email: String,
    user_password: String,
    user_role: String,
}

impl RegisterPayload {
    pub fn new(
        user_name: String,
        user_email: String,
        user_password: String,
        user_role: String,
    ) -> (r: Self)
        ensures
            r.spec_user_name() == user_name@,
            r.spec_user_email() == user_email@,
            r.spec_user_password() == user_password@,
            r.spec_user_role() == user_role@,
    {
        Self { user_name, user_email, user_password, user_role }
    }

    pub closed spec fn spec_user_name(self) -> Seq<char> {
        self.user_name@
    }

    pub closed spec fn spec_user_email(self) -> Seq<char> {
        self.user_email@
    }

    pub closed spec fn spec_user_password(self) -> Seq<char> {
        self.user_password@
    }

    pub closed spec fn spec_user_role(self) -> Seq<char> {
        self.user_role@
    }

    pub fn user_name(&self) -> (r: &str)
        ensures
            r@ == self.spec_user_name(),
    {
        self.user_name.as_str()
    }

    pub fn user_email(&self) -> (r: &str)
        ensures
            r@ == self.spec_user_email(),
    {
        self.user_email.as_str()
    }
}

/// The role a registration form names: as written when recognised, and the
/// client role otherwise.
pub open spec fn spec_form_role(s: Seq<char>) -> UserRole {
    match UserRole::spec_parse(s) {
        Some(r) => r,
        None => UserRole::Cliente,
    }
}

/// Builds the user record a registration stores: the form's name and
/// email, the named role (an unrecognised name falls back to client), no
/// id yet, and in place of the password a hash that verifies against it.
/// Nothing is returned only when hashing itself fails.
pub fn prepare_registration(payload: &RegisterPayload) -> (r: Option<User>)
    ensures
        r matches Some(u) ==> u.user_name@ == payload.spec_user_name() && u.user_email@
            == payload.spec_user_email() && u.user_role == spec_form_role(payload.spec_user_role())
            && u.user_id is None && bcrypt_verifies(payload.spec_user_password(), u.user_password@),
{
    let role = match UserRole::parse_role(payload.user_role.as_str()) {
        Some(r) => r,
        None => UserRole::Cliente,
    };
    match password_hash(payload.user_password.as_str()) {
        Some(hashed) => Some(
            User::build_user(
                payload.user_name.clone(),
                payload.user_email.clone(),
                hashed,
                role,
            ),
        ),
        None => None,
    }
}

} // verus!
