//! Users and their roles.  The role drives authorization: it is carried in
//! the signed credential and checked before administrator-only operations.

use crate::text::{eq_ignore_case, matches_lowered};
use vstd::prelude::*;

verus! {

/// The closed set of authorization levels a principal can hold.
#[derive(Debug, PartialEq, Eq, Structural, Clone, Copy)]
pub enum UserRole {
    Cliente,
    Administrador,
}

impl UserRole {
    /// The role's display name; also its wire form inside token claims and
    /// its stored form in the credential store.
    pub open spec fn spec_label(self) -> Seq<char> {
        match self {
            UserRole::Cliente => "Cliente"@,
            UserRole::Administrador => "Administrador"@,
        }
    }

    pub fn label(&self) -> (r: String)
        ensures
            r@ == self.spec_label(),
    {
        match self {
            UserRole::Cliente => "Cliente".to_owned(),
            UserRole::Administrador => "Administrador".to_owned(),
        }
    }

    /// Which role a name denotes, letter case aside.
    pub open spec fn spec_parse(s: Seq<char>) -> Option<UserRole> {
        if matches_lowered(s, "cliente"@) {
            Some(UserRole::Cliente)
        } else if matches_lowered(s, "administrador"@) {
            Some(UserRole::Administrador)
        } else {
            None
        }
    }

    /// Reads a role from its name, ignoring letter case; any other string is
    /// rejected.
    pub fn parse_role(s: &str) -> (r: Option<UserRole>)
        ensures
            r == UserRole::spec_parse(s@),
    {
        if eq_ignore_case(s, "cliente") {
            Some(UserRole::Cliente)
        } else if eq_ignore_case(s, "administrador") {
            Some(UserRole::Administrador)
        } else {
            None
        }
    }
}

/// A stored user record: credentials plus role.  `user_password` holds the
/// one-way hash of the password, never the plaintext.
#[derive(Debug, Clone)]
pub struct User {
    pub user_id: Option<i32>,
    pub user_name: String,
    pub user_email: String,
    pub user_password: String,
    pub user_role: UserRole,
}

impl User {
    /// Builds a user record that has not been stored yet, so carries no id.
    /// The password handed in must already be hashed.
    pub fn build_user(name: String, email: String, password: String, role: UserRole) -> (r: Self)
        ensures
            r.user_id is None,
            r.user_name == name,
            r.user_email == email,
            r.user_password == password,
            r.user_role == role,
    {
        Self {
            user_id: None,
            user_name: name,
            user_email: email,
            user_password: password,
            user_role: role,
        }
    }
}

} // verus!
