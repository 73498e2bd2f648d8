//! The data model: role and ticket vocabularies, their wire forms, and the
//! handler helpers around them.

use helpdesk::controllers::admin_controller::{priority_options, SetPriorityPayload};
use helpdesk::controllers::auth_controller::ErrorMessage;
use helpdesk::controllers::ticket_controller::{assign_ticket_client, claims_user_id};
use helpdesk::controllers::user_controller::{prepare_registration, RegisterPayload};
use helpdesk::models::ticket::{Category, NewTicket, Priority, StatusTicket, Ticket};
use helpdesk::models::user::{User, UserRole};
use helpdesk::services::auth_service::{password_verify, Claims};

#[test]
fn role_labels() {
    assert_eq!(UserRole::Cliente.label(), "Cliente");
    assert_eq!(UserRole::Administrador.label(), "Administrador");
}

#[test]
fn role_parsing_ignores_case() {
    assert_eq!(UserRole::parse_role("cliente"), Some(UserRole::Cliente));
    assert_eq!(UserRole::parse_role("Cliente"), Some(UserRole::Cliente));
    assert_eq!(UserRole::parse_role("CLIENTE"), Some(UserRole::Cliente));
    assert_eq!(UserRole::parse_role("Administrador"), Some(UserRole::Administrador));
    assert_eq!(UserRole::parse_role("ADMINISTRADOR"), Some(UserRole::Administrador));
    assert_eq!(UserRole::parse_role("gerente"), None);
    assert_eq!(UserRole::parse_role(""), None);
}

#[test]
fn build_user_carries_the_fields() {
    let user = User::build_user(
        "Ana".to_string(),
        "a@x.com".to_string(),
        "hashed".to_string(),
        UserRole::Cliente,
    );
    assert_eq!(user.user_id, None);
    assert_eq!(user.user_name, "Ana");
    assert_eq!(user.user_email, "a@x.com");
    assert_eq!(user.user_password, "hashed");
    assert_eq!(user.user_role, UserRole::Cliente);
}

#[test]
fn new_ticket_defaults() {
    let ticket: Ticket = Ticket::new_ticket(
        "Printer".to_string(),
        "It smokes".to_string(),
        42,
        Category::Hardware,
        "Ana".to_string(),
    );
    assert_eq!(ticket.ticket_id, None);
    assert_eq!(ticket.ticket_status, StatusTicket::Aberto);
    assert_eq!(ticket.ticket_priority, Priority::Media);
    assert_eq!(ticket.ticket_title, "Printer");
    assert_eq!(ticket.ticket_description, "It smokes");
    assert_eq!(ticket.ticket_client_id, 42);
    assert_eq!(ticket.ticket_category, Category::Hardware);
    assert_eq!(ticket.ticket_client_name, "Ana");
}

#[test]
fn priority_labels_and_stored_forms() {
    assert_eq!(Priority::Baixa.label(), "Baixa");
    assert_eq!(Priority::Media.label(), "Média");
    assert_eq!(Priority::Alta.label(), "Alta");
    assert_eq!(Priority::Baixa.stored_value(), "baixa");
    assert_eq!(Priority::Media.stored_value(), "média");
    assert_eq!(Priority::Alta.stored_value(), "alta");
}

#[test]
fn priority_from_stored_ignores_case_and_falls_back() {
    assert_eq!(Priority::from_stored("baixa"), Priority::Baixa);
    assert_eq!(Priority::from_stored("BAIXA"), Priority::Baixa);
    assert_eq!(Priority::from_stored("média"), Priority::Media);
    assert_eq!(Priority::from_stored("MÉDIA"), Priority::Media);
    assert_eq!(Priority::from_stored("media"), Priority::Media);
    assert_eq!(Priority::from_stored("alta"), Priority::Alta);
    assert_eq!(Priority::from_stored("Alta"), Priority::Alta);
    assert_eq!(Priority::from_stored("whatever"), Priority::Media);
}

#[test]
fn priority_display_names_parse_exactly() {
    assert_eq!(Priority::parse_label("Baixa"), Some(Priority::Baixa));
    assert_eq!(Priority::parse_label("Média"), Some(Priority::Media));
    assert_eq!(Priority::parse_label("Alta"), Some(Priority::Alta));
    assert_eq!(Priority::parse_label("baixa"), None);
    assert_eq!(Priority::parse_label("Media"), None);
    assert_eq!(Priority::parse_label("urgent"), None);
}

#[test]
fn status_and_category_stored_forms() {
    assert_eq!(StatusTicket::Aberto.label(), "Aberto");
    assert_eq!(StatusTicket::Fechado.label(), "Fechado");
    assert_eq!(StatusTicket::from_stored("Fechado"), StatusTicket::Fechado);
    assert_eq!(StatusTicket::from_stored("Aberto"), StatusTicket::Aberto);
    assert_eq!(StatusTicket::from_stored("unknown"), StatusTicket::Aberto);
    assert_eq!(Category::from_stored("Software"), Category::Software);
    assert_eq!(Category::from_stored("Hardware"), Category::Hardware);
    assert_eq!(Category::from_stored("Redes"), Category::Redes);
    assert_eq!(Category::from_stored("Acesso"), Category::Acesso);
    assert_eq!(Category::from_stored("other"), Category::Software);
    assert_eq!(Category::Redes.label(), "Redes");
}

#[test]
fn dashboard_priority_options() {
    let options = priority_options();
    assert_eq!(options, vec!["Baixa".to_string(), "Média".to_string(), "Alta".to_string()]);
}

#[test]
fn set_priority_payload_resolves() {
    assert_eq!(SetPriorityPayload::new("Alta".to_string()).resolve(), Some(Priority::Alta));
    assert_eq!(SetPriorityPayload::new("alta".to_string()).resolve(), None);
}

#[test]
fn registration_keeps_fields_and_hashes_password() {
    let payload = RegisterPayload::new(
        "Ana".to_string(),
        "a@x.com".to_string(),
        "secret".to_string(),
        "Administrador".to_string(),
    );
    assert_eq!(payload.user_name(), "Ana");
    assert_eq!(payload.user_email(), "a@x.com");
    let user = prepare_registration(&payload).expect("hashing must succeed");
    assert_eq!(user.user_name, "Ana");
    assert_eq!(user.user_email, "a@x.com");
    assert_eq!(user.user_role, UserRole::Administrador);
    assert_eq!(user.user_id, None);
    // The stored credential is a hash the password verifies against, not
    // the password itself.
    assert_ne!(user.user_password, "secret");
    assert!(password_verify("secret", &user.user_password));
}

#[test]
fn registration_falls_back_to_client_role() {
    let payload = RegisterPayload::new(
        "Bob".to_string(),
        "b@x.com".to_string(),
        "pw".to_string(),
        "Gerente".to_string(),
    );
    let user = prepare_registration(&payload).expect("hashing must succeed");
    assert_eq!(user.user_role, UserRole::Cliente);
}

#[test]
fn claims_subject_parses_to_a_user_id() {
    let claims = Claims { sub: "42".to_string(), role: "Cliente".to_string(), exp: 0 };
    assert_eq!(claims_user_id(&claims), Some(42));
    let bad = Claims { sub: "forty-two".to_string(), role: "Cliente".to_string(), exp: 0 };
    assert_eq!(claims_user_id(&bad), None);
    let huge = Claims { sub: "99999999999".to_string(), role: "Cliente".to_string(), exp: 0 };
    assert_eq!(claims_user_id(&huge), None);
}

#[test]
fn submitted_ticket_gets_the_principals_id() {
    let mut payload = NewTicket {
        ticket_description: "It smokes".to_string(),
        ticket_client_id: 7,
        ticket_title: "Printer".to_string(),
        ticket_category: Category::Hardware,
    };
    assign_ticket_client(&mut payload, 42);
    assert_eq!(payload.ticket_client_id, 42);
    assert_eq!(payload.ticket_title, "Printer");
    assert_eq!(payload.ticket_description, "It smokes");
    assert_eq!(payload.ticket_category, Category::Hardware);
}

#[test]
fn error_message_body() {
    let body = ErrorMessage::new("Credenciais inválidas".to_string());
    assert_eq!(body.error(), "Credenciais inválidas");
}
