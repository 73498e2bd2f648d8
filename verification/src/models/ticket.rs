//! Support tickets: status, priority and category vocabularies with their
//! wire forms, and the ticket records themselves.

use crate::text::{matches_lowered, eq_ignore_case, str_eq};
use vstd::prelude::*;

verus! {

/// Whether a ticket is still open.
#[derive(Debug, PartialEq, Eq, Structural, Clone, Copy)]
pub enum StatusTicket {
    Aberto,
    Fechado,
}

impl StatusTicket {
    /// Display name, which is also the stored form.
    pub open spec fn spec_label(self) -> Seq<char> {
        match self {
            StatusTicket::Aberto => "Aberto"@,
            StatusTicket::Fechado => "Fechado"@,
        }
    }

    pub fn label(&self) -> (r: String)
        ensures
            r@ == self.spec_label(),
    {
        match self {
            StatusTicket::Aberto => "Aberto".to_owned(),
            StatusTicket::Fechado => "Fechado".to_owned(),
        }
    }

    /// The status a stored value denotes; an unrecognised value counts as
    /// open.
    pub open spec fn spec_from_stored(s: Seq<char>) -> StatusTicket {
        if s == "Fechado"@ {
            StatusTicket::Fechado
        } else {
            StatusTicket::Aberto
        }
    }

    pub fn from_stored(s: &str) -> (r: StatusTicket)
        ensures
            r == StatusTicket::spec_from_stored(s@),
    {
        if str_eq(s, "Fechado") {
            StatusTicket::Fechado
        } else {
            StatusTicket::Aberto
        }
    }
}

/// Triage priority of a ticket.
#[derive(Debug, PartialEq, Eq, Structural, Clone, Copy)]
pub enum Priority {
    Baixa,
    Media,
    Alta,
}

impl Priority {
    /// Display name, shown in the administrator's dashboard.
    pub open spec fn spec_label(self) -> Seq<char> {
        match self {
            Priority::Baixa => "Baixa"@,
            Priority::Media => "Média"@,
            Priority::Alta => "Alta"@,
        }
    }

    pub fn label(&self) -> (r: String)
        ensures
            r@ == self.spec_label(),
    {
        match self {
            Priority::Baixa => "Baixa".to_owned(),
            Priority::Media => "Média".to_owned(),
            Priority::Alta => "Alta".to_owned(),
        }
    }

    /// Stored form: lower case.
    pub open spec fn spec_stored(self) -> Seq<char> {
        match self {
            Priority::Baixa => "baixa"@,
            Priority::Media => "média"@,
            Priority::Alta => "alta"@,
        }
    }

    pub fn stored_value(&self) -> (r: String)
        ensures
            r@ == self.spec_stored(),
    {
        match self {
            Priority::Baixa => "baixa".to_owned(),
            Priority::Media => "média".to_owned(),
            Priority::Alta => "alta".to_owned(),
        }
    }

    /// The priority a stored value denotes, letter case aside; the accented
    /// and unaccented spellings of the middle priority both count, and an
    /// unrecognised value falls back to it.
    pub open spec fn spec_from_stored(s: Seq<char>) -> Priority {
        if matches_lowered(s, "baixa"@) {
            Priority::Baixa
        } else if matches_lowered(s, "alta"@) {
            Priority::Alta
        } else {
            Priority::Media
        }
    }

    pub fn from_stored(s: &str) -> (r: Priority)
        ensures
            r == Priority::spec_from_stored(s@),
    {
        if eq_ignore_case(s, "baixa") {
            Priority::Baixa
        } else if eq_ignore_case(s, "alta") {
            Priority::Alta
        } else {
            Priority::Media
        }
    }

    /// The priority a display name denotes, exactly; anything else is
    /// rejected.
    pub open spec fn spec_parse_label(s: Seq<char>) -> Option<Priority> {
        if s == "Baixa"@ {
            Some(Priority::Baixa)
        } else if s == "Média"@ {
            Some(Priority::Media)
        } else if s == "Alta"@ {
            Some(Priority::Alta)
        } else {
            None
        }
    }

    pub fn parse_label(s: &str) -> (r: Option<Priority>)
        ensures
            r == Priority::spec_parse_label(s@),
    {
        if str_eq(s, "Baixa") {
            Some(Priority::Baixa)
        } else if str_eq(s, "Média") {
            Some(Priority::Media)
        } else if str_eq(s, "Alta") {
            Some(Priority::Alta)
        } else {
            None
        }
    }
}

/// What a ticket is about.
#[derive(Debug, PartialEq, Eq, Structural, Clone, Copy)]
pub enum Category {
    Software,
    Hardware,
    Redes,
    Acesso,
}

impl Category {
    /// Display name, which is also the stored form.
    pub open spec fn spec_label(self) -> Seq<char> {
        match self {
            Category::Software => "Software"@,
            Category::Hardware => "Hardware"@,
            Category::Redes => "Redes"@,
            Category::Acesso => "Acesso"@,
        }
    }

    pub fn label(&self) -> (r: String)
        ensures
            r@ == self.spec_label(),
    {
        match self {
            Category::Software => "Software".to_owned(),
            Category::Hardware => "Hardware".to_owned(),
            Category::Redes => "Redes".to_owned(),
            Category::Acesso => "Acesso".to_owned(),
        }
    }

    /// The category a stored value denotes; an unrecognised value counts as
    /// software.
    pub open spec fn spec_from_stored(s: Seq<char>) -> Category {
        if s == "Hardware"@ {
            Category::Hardware
        } else if s == "Redes"@ {
            Category::Redes
        } else if s == "Acesso"@ {
            Category::Acesso
        } else {
            Category::Software
        }
    }

    pub fn from_stored(s: &str) -> (r: Category)
        ensures
            r == Category::spec_from_stored(s@),
    {
        if str_eq(s, "Hardware") {
            Category::Hardware
        } else if str_eq(s, "Redes") {
            Category::Redes
        } else if str_eq(s, "Acesso") {
            Category::Acesso
        } else {
            Category::Software
        }
    }
}

/// A stored ticket, as shown to its owner and to administrators.
#[derive(Debug, Clone)]
pub struct Ticket {
    pub ticket_id: Option<i32>,
    pub ticket_status: StatusTicket,
    pub ticket_priority: Priority,
    pub ticket_description: String,
    pub ticket_title: String,
    pub ticket_client_id: i32,
    pub ticket_category: Category,
    pub ticket_client_name: String,
}

/// What a client submits when opening a ticket.
#[derive(Debug, Clone)]
pub struct NewTicket {
    pub ticket_description: String,
    pub ticket_client_id: i32,
    pub ticket_title: String,
    pub ticket_category: Category,
}

impl Ticket {
    /// Builds a fresh ticket: not stored yet, open, and at the default
    /// (middle) priority.
    pub fn new_ticket(
        title: String,
        description: String,
        client_id: i32,
        category: Category,
        client_name: String,
    ) -> (r: Self)
        ensures
            r.ticket_id is None,
            r.ticket_status == StatusTicket::Aberto,
            r.ticket_priority == Priority::Media,
            r.ticket_description == description,
            r.ticket_client_id == client_id,
            r.ticket_title == title,
            r.ticket_category == category,
            r.ticket_client_name == client_name,
    {
        Self {
            ticket_id: None,
            ticket_status: StatusTicket::Aberto,
            ticket_priority: Priority::Media,
            ticket_description: description,
            ticket_client_id: client_id,
            ticket_title: title,
            ticket_category: category,
            ticket_client_name: client_name,
        }
    }
}

} // verus!
