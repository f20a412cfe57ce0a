use ticket_api::CreateTicketRequest;
use ticket_api::FieldName;
use ticket_api::PatchTicketRequest;
use ticket_api::Status;
use ticket_api::StoreError;
use ticket_api::TicketDraft;
use ticket_api::TicketId;
use ticket_api::TicketStore;
use ticket_api::ValidationError;

fn draft(title: &str, description: &str) -> TicketDraft {
    let request = CreateTicketRequest {
        title: title.to_string(),
        description: description.to_string(),
    };
    TicketDraft::from_request(request).unwrap()
}

fn no_change() -> PatchTicketRequest {
    PatchTicketRequest { title: None, description: None, status: None }
}

#[test]
fn add_then_get_round_trip() {
    let mut store = TicketStore::new();
    let id = store.add_ticket(draft("Fix bug", "The login page crashes"));
    let ticket = store.get_ticket(&id).unwrap();
    assert_eq!(ticket.id, id);
    assert_eq!(ticket.title.0, "Fix bug");
    assert_eq!(ticket.description.0, "The login page crashes");
    assert_eq!(ticket.status, Status::ToDo);
}

#[test]
fn get_is_idempotent() {
    let mut store = TicketStore::new();
    let id = store.add_ticket(draft("Once", "Twice"));
    let first = store.get_ticket(&id).unwrap();
    let second = store.get_ticket(&id).unwrap();
    assert_eq!(first.id, second.id);
    assert_eq!(first.title, second.title);
    assert_eq!(first.description, second.description);
    assert_eq!(first.status, second.status);
}

#[test]
fn get_unknown_id_is_not_found() {
    let store = TicketStore::new();
    let id = TicketId(42);
    assert_eq!(store.get_ticket(&id).unwrap_err(), StoreError::TicketNotFound(id));
}

#[test]
fn patch_unknown_id_is_not_found() {
    let mut store = TicketStore::new();
    let id = TicketId::new();
    let err = store.patch_ticket(&id, no_change()).unwrap_err();
    assert_eq!(err, StoreError::TicketNotFound(id));
}

#[test]
fn patch_status_changes_only_status() {
    let mut store = TicketStore::new();
    let id = store.add_ticket(draft("Stable title", "Stable description"));
    let patch = PatchTicketRequest { title: None, description: None, status: Some(Status::InProgress) };
    let updated = store.patch_ticket(&id, patch).unwrap();
    assert_eq!(updated.status, Status::InProgress);
    assert_eq!(updated.title.0, "Stable title");
    assert_eq!(updated.description.0, "Stable description");
    let fetched = store.get_ticket(&id).unwrap();
    assert_eq!(fetched.status, Status::InProgress);
    assert_eq!(fetched.title.0, "Stable title");
    assert_eq!(fetched.description.0, "Stable description");
}

#[test]
fn patch_all_fields() {
    let mut store = TicketStore::new();
    let id = store.add_ticket(draft("Old title", "Old description"));
    let patch = PatchTicketRequest {
        title: Some("New title".to_string()),
        description: Some("New description".to_string()),
        status: Some(Status::Done),
    };
    let updated = store.patch_ticket(&id, patch).unwrap();
    assert_eq!(updated.title.0, "New title");
    assert_eq!(updated.description.0, "New description");
    assert_eq!(updated.status, Status::Done);
}

#[test]
fn patch_invalid_title_leaves_ticket_unchanged() {
    let mut store = TicketStore::new();
    let id = store.add_ticket(draft("Keep me", "And me"));
    let patch = PatchTicketRequest {
        title: Some("   ".to_string()),
        description: Some("Never applied".to_string()),
        status: Some(Status::Done),
    };
    let err = store.patch_ticket(&id, patch).unwrap_err();
    assert_eq!(err, StoreError::InvalidField(FieldName::Title, ValidationError::EmptyTitle));
    let ticket = store.get_ticket(&id).unwrap();
    assert_eq!(ticket.title.0, "Keep me");
    assert_eq!(ticket.description.0, "And me");
    assert_eq!(ticket.status, Status::ToDo);
}

#[test]
fn patch_overlong_title_is_rejected() {
    let mut store = TicketStore::new();
    let id = store.add_ticket(draft("Short", "Body"));
    let patch = PatchTicketRequest { title: Some("t".repeat(101)), description: None, status: None };
    let err = store.patch_ticket(&id, patch).unwrap_err();
    assert_eq!(err, StoreError::InvalidField(FieldName::Title, ValidationError::TitleTooLong));
    assert_eq!(store.get_ticket(&id).unwrap().title.0, "Short");
}

#[test]
fn partial_failure_commits_earlier_fields() {
    // The documented partial-update hazard: the title is written before the
    // description is validated, and a failing description does not roll the
    // title back.
    let mut store = TicketStore::new();
    let id = store.add_ticket(draft("A", "B"));
    let patch = PatchTicketRequest {
        title: Some("C".to_string()),
        description: Some("x".repeat(1001)),
        status: Some(Status::Done),
    };
    let err = store.patch_ticket(&id, patch).unwrap_err();
    assert_eq!(
        err,
        StoreError::InvalidField(FieldName::Description, ValidationError::DescriptionTooLong)
    );
    let ticket = store.get_ticket(&id).unwrap();
    assert_eq!(ticket.title.0, "C");
    assert_eq!(ticket.description.0, "B");
    assert_eq!(ticket.status, Status::ToDo);
}

#[test]
fn many_adds_all_visible_with_distinct_ids() {
    let mut store = TicketStore::new();
    let mut ids = Vec::new();
    for i in 0..20 {
        let id = store.add_ticket(draft(&format!("Ticket {}", i), "body"));
        ids.push(id);
    }
    for i in 0..ids.len() {
        for j in (i + 1)..ids.len() {
            assert_ne!(ids[i], ids[j]);
        }
    }
    let listed = store.list_tickets();
    assert_eq!(listed.len(), 20);
    for id in &ids {
        assert!(listed.iter().any(|t| t.id == *id));
    }
}

#[test]
fn serialized_disjoint_patches_lose_nothing() {
    // Two patches on the same ticket with non-overlapping fields: the store
    // serializes them, and neither update is lost.
    let mut store = TicketStore::new();
    let id = store.add_ticket(draft("First", "Second"));
    let patch_title =
        PatchTicketRequest { title: Some("Patched title".to_string()), description: None, status: None };
    let patch_description = PatchTicketRequest {
        title: None,
        description: Some("Patched description".to_string()),
        status: None,
    };
    store.patch_ticket(&id, patch_title).unwrap();
    store.patch_ticket(&id, patch_description).unwrap();
    let ticket = store.get_ticket(&id).unwrap();
    assert_eq!(ticket.title.0, "Patched title");
    assert_eq!(ticket.description.0, "Patched description");
    assert_eq!(ticket.status, Status::ToDo);
}

#[test]
fn list_on_empty_store_is_empty() {
    let store = TicketStore::new();
    assert!(store.list_tickets().is_empty());
}

#[test]
fn list_reflects_patches() {
    let mut store = TicketStore::new();
    let id = store.add_ticket(draft("Listed", "Entry"));
    let patch = PatchTicketRequest { title: None, description: None, status: Some(Status::Done) };
    store.patch_ticket(&id, patch).unwrap();
    let listed = store.list_tickets();
    assert_eq!(listed.len(), 1);
    assert_eq!(listed[0].id, id);
    assert_eq!(listed[0].status, Status::Done);
}

#[test]
fn empty_patch_returns_current_ticket() {
    let mut store = TicketStore::new();
    let id = store.add_ticket(draft("As is", "Untouched"));
    let ticket = store.patch_ticket(&id, no_change()).unwrap();
    assert_eq!(ticket.title.0, "As is");
    assert_eq!(ticket.description.0, "Untouched");
    assert_eq!(ticket.status, Status::ToDo);
}
