use tagblaze::error::{ApiError, StoreFailure};
use tagblaze::handlers::ticket::{
    create_ticket, delete_ticket_by_id, get_ticket_by_id, get_tickets, update_ticket_by_id,
    CreateTicket, UpdateTicket,
};
use tagblaze::models::{Ticket, User};
use tagblaze::policy::{can_access, is_admin};
use tagblaze::utils::jwt::Claims;

fn user(id: i32, email: &str, role: &str) -> User {
    User {
        id,
        email: email.to_string(),
        name: "N".to_string(),
        password: "digest".to_string(),
        role: role.to_string(),
        created_at: Some(1),
    }
}

fn claims(email: &str) -> Claims {
    Claims { sub: email.to_string(), exp: 2_000_000_000 }
}

fn ticket(id: i32, title: &str, owner: Option<i32>) -> Ticket {
    Ticket {
        id,
        title: title.to_string(),
        description: Some("d".to_string()),
        status: Some("open".to_string()),
        user_id: owner,
        created_at: Some(5),
        updated_at: Some(6),
    }
}

fn no_change() -> UpdateTicket {
    UpdateTicket { title: None, description: None, status: None }
}

#[test]
fn admin_role_is_matched_exactly() {
    assert!(is_admin("admin"));
    assert!(!is_admin("Admin"));
    assert!(!is_admin("admin "));
    assert!(!is_admin("agent"));
    assert!(!is_admin(""));
}

#[test]
fn access_is_for_owner_or_admin() {
    assert!(can_access("agent", 3, Some(3)));
    assert!(!can_access("agent", 3, Some(4)));
    assert!(!can_access("agent", 3, None));
    assert!(can_access("admin", 3, Some(4)));
    assert!(can_access("admin", 3, None));
    assert!(can_access("admin", 3, Some(3)));
    assert!(!can_access("", 0, None));
}

#[test]
fn owner_reads_updates_and_deletes_own_ticket() {
    let c = claims("a@x.com");
    let read = get_ticket_by_id(&c, Ok(Some(user(1, "a@x.com", "agent"))), Ok(Some(ticket(10, "T1", Some(1)))));
    assert_eq!(read.unwrap().id, 10);
    let updated = update_ticket_by_id(
        &c,
        Ok(Some(user(1, "a@x.com", "agent"))),
        Ok(Some(ticket(10, "T1", Some(1)))),
        UpdateTicket { title: Some("T1b".to_string()), description: None, status: None },
        99,
    )
    .unwrap();
    assert_eq!(updated.title, "T1b");
    let deleted =
        delete_ticket_by_id(&c, Ok(Some(user(1, "a@x.com", "agent"))), Ok(Some(ticket(10, "T1", Some(1)))));
    assert_eq!(deleted, Ok(10));
}

#[test]
fn non_owner_is_forbidden() {
    let c = claims("a@x.com");
    let read = get_ticket_by_id(&c, Ok(Some(user(1, "a@x.com", "agent"))), Ok(Some(ticket(11, "T2", Some(2)))));
    assert_eq!(read.unwrap_err(), ApiError::Forbidden);
    let updated = update_ticket_by_id(
        &c,
        Ok(Some(user(1, "a@x.com", "agent"))),
        Ok(Some(ticket(11, "T2", Some(2)))),
        no_change(),
        99,
    );
    assert_eq!(updated.unwrap_err(), ApiError::Forbidden);
    let deleted =
        delete_ticket_by_id(&c, Ok(Some(user(1, "a@x.com", "agent"))), Ok(Some(ticket(11, "T2", Some(2)))));
    assert_eq!(deleted, Err(ApiError::Forbidden));
}

#[test]
fn admin_reaches_both_tickets() {
    let c = claims("root@x.com");
    for (id, owner) in [(10, Some(1)), (11, Some(2)), (12, None)] {
        let read =
            get_ticket_by_id(&c, Ok(Some(user(9, "root@x.com", "admin"))), Ok(Some(ticket(id, "T", owner))));
        assert_eq!(read.unwrap().id, id);
        let updated = update_ticket_by_id(
            &c,
            Ok(Some(user(9, "root@x.com", "admin"))),
            Ok(Some(ticket(id, "T", owner))),
            no_change(),
            99,
        );
        assert_eq!(updated.unwrap().id, id);
        let deleted =
            delete_ticket_by_id(&c, Ok(Some(user(9, "root@x.com", "admin"))), Ok(Some(ticket(id, "T", owner))));
        assert_eq!(deleted, Ok(id));
    }
}

#[test]
fn ticket_without_owner_is_for_admins_only() {
    let c = claims("a@x.com");
    let read = get_ticket_by_id(&c, Ok(Some(user(1, "a@x.com", "agent"))), Ok(Some(ticket(12, "T", None))));
    assert_eq!(read.unwrap_err(), ApiError::Forbidden);
}

#[test]
fn missing_ticket_is_not_found() {
    let c = claims("a@x.com");
    assert_eq!(
        get_ticket_by_id(&c, Ok(Some(user(1, "a@x.com", "agent"))), Ok(None)).unwrap_err(),
        ApiError::NotFound
    );
    assert_eq!(
        delete_ticket_by_id(&c, Ok(Some(user(1, "a@x.com", "admin"))), Ok(None)),
        Err(ApiError::NotFound)
    );
    assert_eq!(
        update_ticket_by_id(&c, Ok(Some(user(1, "a@x.com", "agent"))), Ok(None), no_change(), 1).unwrap_err(),
        ApiError::NotFound
    );
}

#[test]
fn vanished_user_comes_before_missing_ticket() {
    let c = claims("a@x.com");
    assert_eq!(get_ticket_by_id(&c, Ok(None), Ok(None)).unwrap_err(), ApiError::Unauthenticated);
    assert_eq!(
        get_ticket_by_id(&c, Ok(None), Ok(Some(ticket(10, "T1", Some(1))))).unwrap_err(),
        ApiError::Unauthenticated
    );
    assert_eq!(delete_ticket_by_id(&c, Ok(None), Ok(None)), Err(ApiError::Unauthenticated));
    assert_eq!(
        update_ticket_by_id(&c, Ok(None), Ok(Some(ticket(10, "T1", Some(1)))), no_change(), 1).unwrap_err(),
        ApiError::Unauthenticated
    );
    assert_eq!(
        create_ticket(
            &c,
            Ok(None),
            CreateTicket { title: "T".to_string(), description: None, status: None },
            1
        )
        .unwrap_err(),
        ApiError::Unauthenticated
    );
    assert_eq!(get_tickets(&c, Ok(None), Ok(vec![])).unwrap_err(), ApiError::Unauthenticated);
}

#[test]
fn created_ticket_belongs_to_the_caller_and_is_open() {
    let c = claims("a@x.com");
    let made = create_ticket(
        &c,
        Ok(Some(user(7, "a@x.com", "agent"))),
        CreateTicket { title: "T".to_string(), description: None, status: None },
        1234,
    )
    .unwrap();
    assert_eq!(made.title, "T");
    assert_eq!(made.description, None);
    assert_eq!(made.status, Some("open".to_string()));
    assert_eq!(made.user_id, Some(7));
    assert_eq!(made.created_at, Some(1234));
    assert_eq!(made.updated_at, Some(1234));
}

#[test]
fn created_ticket_keeps_a_given_status_and_description() {
    let c = claims("a@x.com");
    let made = create_ticket(
        &c,
        Ok(Some(user(7, "a@x.com", "agent"))),
        CreateTicket {
            title: "T".to_string(),
            description: Some("why".to_string()),
            status: Some("closed".to_string()),
        },
        -5,
    )
    .unwrap();
    assert_eq!(made.description, Some("why".to_string()));
    assert_eq!(made.status, Some("closed".to_string()));
    assert_eq!(made.created_at, Some(-5));
}

#[test]
fn non_admin_lists_own_tickets_only() {
    let c = claims("a@x.com");
    let rows = vec![
        ticket(1, "mine", Some(1)),
        ticket(2, "theirs", Some(2)),
        ticket(3, "nobody's", None),
        ticket(4, "mine too", Some(1)),
    ];
    let list = get_tickets(&c, Ok(Some(user(1, "a@x.com", "agent"))), Ok(rows)).unwrap();
    assert_eq!(list.len(), 2);
    assert_eq!(list[0].id, 1);
    assert_eq!(list[0].title, "mine");
    assert_eq!(list[1].id, 4);
    assert_eq!(list[1].title, "mine too");
    assert_eq!(list[1].description, Some("d".to_string()));
    assert_eq!(list[1].updated_at, Some(6));
}

#[test]
fn admin_lists_all_tickets() {
    let c = claims("root@x.com");
    let rows = vec![
        ticket(1, "mine", Some(1)),
        ticket(2, "theirs", Some(2)),
        ticket(3, "nobody's", None),
    ];
    let list = get_tickets(&c, Ok(Some(user(9, "root@x.com", "admin"))), Ok(rows)).unwrap();
    assert_eq!(list.len(), 3);
    assert_eq!(list[0].id, 1);
    assert_eq!(list[1].id, 2);
    assert_eq!(list[2].id, 3);
    assert_eq!(list[2].user_id, None);
}

#[test]
fn listing_of_nothing_is_empty() {
    let c = claims("a@x.com");
    let list = get_tickets(&c, Ok(Some(user(1, "a@x.com", "agent"))), Ok(vec![])).unwrap();
    assert!(list.is_empty());
    let rows = vec![ticket(2, "theirs", Some(2))];
    let list = get_tickets(&c, Ok(Some(user(1, "a@x.com", "agent"))), Ok(rows)).unwrap();
    assert!(list.is_empty());
}

#[test]
fn empty_update_changes_updated_at_only() {
    let c = claims("a@x.com");
    let updated = update_ticket_by_id(
        &c,
        Ok(Some(user(1, "a@x.com", "agent"))),
        Ok(Some(ticket(10, "T1", Some(1)))),
        no_change(),
        777,
    )
    .unwrap();
    assert_eq!(updated.id, 10);
    assert_eq!(updated.title, "T1");
    assert_eq!(updated.description, Some("d".to_string()));
    assert_eq!(updated.status, Some("open".to_string()));
    assert_eq!(updated.user_id, Some(1));
    assert_eq!(updated.created_at, Some(5));
    assert_eq!(updated.updated_at, Some(777));
}

#[test]
fn update_changes_the_fields_that_are_present() {
    let c = claims("a@x.com");
    let updated = update_ticket_by_id(
        &c,
        Ok(Some(user(1, "a@x.com", "agent"))),
        Ok(Some(ticket(10, "T1", Some(1)))),
        UpdateTicket {
            title: None,
            description: Some("new".to_string()),
            status: Some("closed".to_string()),
        },
        8,
    )
    .unwrap();
    assert_eq!(updated.title, "T1");
    assert_eq!(updated.description, Some("new".to_string()));
    assert_eq!(updated.status, Some("closed".to_string()));
    assert_eq!(updated.user_id, Some(1));
    assert_eq!(updated.updated_at, Some(8));
}

#[test]
fn copy_of_a_ticket_holds_the_same_fields() {
    let t = ticket(10, "T1", Some(1));
    let copy = t.duplicate();
    assert_eq!(copy.id, t.id);
    assert_eq!(copy.title, t.title);
    assert_eq!(copy.description, t.description);
    assert_eq!(copy.status, t.status);
    assert_eq!(copy.user_id, t.user_id);
    assert_eq!(copy.created_at, t.created_at);
    assert_eq!(copy.updated_at, t.updated_at);
}

#[test]
fn failed_lookups_are_internal_errors() {
    let c = claims("a@x.com");
    assert_eq!(
        get_ticket_by_id(&c, Err(StoreFailure), Ok(Some(ticket(10, "T1", Some(1))))).unwrap_err(),
        ApiError::InternalError
    );
    assert_eq!(
        get_ticket_by_id(&c, Ok(Some(user(1, "a@x.com", "agent"))), Err(StoreFailure)).unwrap_err(),
        ApiError::InternalError
    );
    assert_eq!(
        get_ticket_by_id(&c, Ok(None), Err(StoreFailure)).unwrap_err(),
        ApiError::Unauthenticated
    );
    assert_eq!(
        get_tickets(&c, Ok(Some(user(1, "a@x.com", "agent"))), Err(StoreFailure)).unwrap_err(),
        ApiError::InternalError
    );
    assert_eq!(
        delete_ticket_by_id(&c, Err(StoreFailure), Ok(None)),
        Err(ApiError::InternalError)
    );
}
