//! Ticket handlers' decision logic: reading the authenticated principal's
//! id out of the claims, and stamping it into a new ticket before it is
//! stored.

use crate::models::ticket::NewTicket;
use crate::services::auth_service::Claims;
use crate::text::{int_literal_value, parse_i32};
use vstd::prelude::*;

verus! {

/// The user id a token's subject names, when it is a decimal literal that
/// fits; a subject that is not a usable id makes the request bad.
pub fn claims_user_id(claims: &Claims) -> (r: Option<i32>)
    ensures
        r matches Some(v) ==> int_literal_value(claims.sub@) == Some(v as int),
        (int_literal_value(claims.sub@) is Some && i32::MIN <= int_literal_value(
            claims.sub@,
        )->Some_0 <= i32::MAX) ==> (r is Some && r->Some_0 as int == int_literal_value(
            claims.sub@,
        )->Some_0),
        r is None ==> (int_literal_value(claims.sub@) is None || !(i32::MIN <= int_literal_value(
            claims.sub@,
        )->Some_0 <= i32::MAX)),
{
    parse_i32(claims.sub.as_str())
}

/// Stamps the authenticated client's id into a submitted ticket, as the
/// create handler does before storing it: whatever id the client wrote is
/// overridden.
pub fn assign_ticket_client(payload: &mut NewTicket, client_id: i32)
    ensures
        final (payload).ticket_client_id == client_id,
        final (payload).ticket_description == old(payload).ticket_description,
        final (payload).ticket_title == old(payload).ticket_title,
        final (payload).ticket_category == old(payload).ticket_category,
{
    payload.ticket_client_id = client_id;
}

} // verus!
