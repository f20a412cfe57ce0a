use ticket_api::CreateTicketRequest;
use ticket_api::FieldName;
use ticket_api::Status;
use ticket_api::TicketDescription;
use ticket_api::TicketDraft;
use ticket_api::TicketId;
use ticket_api::TicketTitle;
use ticket_api::ValidationError;

#[test]
fn valid_title_is_preserved_exactly() {
    let t = TicketTitle::new("Fix the login bug".to_string()).unwrap();
    assert_eq!(t.0, "Fix the login bug");
    // Surrounding whitespace is only trimmed for the emptiness check; the
    // stored value keeps it.
    let t = TicketTitle::new("  padded  ".to_string()).unwrap();
    assert_eq!(t.0, "  padded  ");
}

#[test]
fn empty_title_is_rejected() {
    assert_eq!(TicketTitle::new("".to_string()), Err(ValidationError::EmptyTitle));
}

#[test]
fn whitespace_only_title_is_rejected() {
    assert_eq!(TicketTitle::new("   ".to_string()), Err(ValidationError::EmptyTitle));
    assert_eq!(TicketTitle::new("\t\n ".to_string()), Err(ValidationError::EmptyTitle));
}

#[test]
fn title_length_boundary() {
    let just_right = "a".repeat(100);
    assert_eq!(TicketTitle::new(just_right.clone()).unwrap().0, just_right);
    let too_long = "a".repeat(101);
    assert_eq!(TicketTitle::new(too_long), Err(ValidationError::TitleTooLong));
}

#[test]
fn blank_title_beats_length_check() {
    // 101 spaces: blank, so rejected as empty, not as too long.
    assert_eq!(TicketTitle::new(" ".repeat(101)), Err(ValidationError::EmptyTitle));
}

#[test]
fn description_length_boundary() {
    let just_right = "d".repeat(1000);
    assert_eq!(TicketDescription::new(just_right.clone()).unwrap().0, just_right);
    let too_long = "d".repeat(1001);
    assert_eq!(TicketDescription::new(too_long), Err(ValidationError::DescriptionTooLong));
}

#[test]
fn empty_description_is_allowed() {
    assert_eq!(TicketDescription::new("".to_string()).unwrap().0, "");
}

fn request(title: &str, description: &str) -> CreateTicketRequest {
    CreateTicketRequest { title: title.to_string(), description: description.to_string() }
}

#[test]
fn draft_from_request_validates_title_first() {
    let r = TicketDraft::from_request(request("", &"e".repeat(1001)));
    assert_eq!(r.unwrap_err(), (FieldName::Title, ValidationError::EmptyTitle));
    let r = TicketDraft::from_request(request(&"b".repeat(101), "fine"));
    assert_eq!(r.unwrap_err(), (FieldName::Title, ValidationError::TitleTooLong));
    let r = TicketDraft::from_request(request("ok", &"e".repeat(1001)));
    assert_eq!(r.unwrap_err(), (FieldName::Description, ValidationError::DescriptionTooLong));
    let d = TicketDraft::from_request(request("ok", "fine")).unwrap();
    assert_eq!(d.title.0, "ok");
    assert_eq!(d.description.0, "fine");
}

#[test]
fn status_labels() {
    assert_eq!(Status::ToDo.label(), "To Do");
    assert_eq!(Status::InProgress.label(), "In Progress");
    assert_eq!(Status::Done.label(), "Done");
}

#[test]
fn fresh_ids_differ() {
    // Random 128-bit identifiers; a collision here is treated as impossible.
    let a = TicketId::new();
    let b = TicketId::new();
    assert_ne!(a, b);
}

#[test]
fn response_flattens_ticket() {
    let d = TicketDraft::from_request(CreateTicketRequest {
        title: "Flat".to_string(),
        description: "Fields".to_string(),
    })
    .unwrap();
    let ticket = ticket_api::Ticket::from_draft(TicketId(9), d);
    let response = ticket_api::TicketResponse::from(ticket);
    assert_eq!(response.id, TicketId(9));
    assert_eq!(response.title, "Flat");
    assert_eq!(response.description, "Fields");
    assert_eq!(response.status, Status::ToDo);
}
