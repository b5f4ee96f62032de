use poke_collection::admin::{
    check_is_admin, delete_user, get_all_users, get_user_collection_admin, remove_card_from_user,
    update_user_role, AdminCommand, AdminError, AdminEvent, AdminFlow, AdminKind, AdminPayload,
    AdminRequest,
};
use poke_collection::auth::AuthenticatedUser;
use poke_collection::models::{RoleUpdate, User, UserCardDto};

fn caller() -> AuthenticatedUser {
    AuthenticatedUser { clerk_id: "boss".to_string(), email: "oak@lab.pl".to_string() }
}

fn looked_up(start: (AdminFlow, AdminCommand)) -> AdminFlow {
    let (flow, command) = start;
    match command {
        AdminCommand::LookUpAdminFlag { clerk_id } => assert_eq!(clerk_id, "boss"),
        _ => panic!("the flag must be looked up first"),
    }
    flow
}

fn refusal(command: AdminCommand) -> AdminError {
    match command {
        AdminCommand::Reply(Err(e)) => e,
        _ => panic!("expected a refusal"),
    }
}

#[test]
fn privilege_decision() {
    assert_eq!(check_is_admin(Ok(Some(Some(true)))), Ok(()));
    assert_eq!(check_is_admin(Ok(Some(Some(false)))), Err(AdminError::NotAdmin));
    assert_eq!(check_is_admin(Ok(Some(None))), Err(AdminError::NotAdmin));
    assert_eq!(check_is_admin(Ok(None)), Err(AdminError::NotAdmin));
    assert_eq!(check_is_admin(Err("db".to_string())), Err(AdminError::PrivilegeCheckFailed));
}

#[test]
fn non_admins_are_refused_for_every_operation() {
    let flags: [Result<Option<Option<bool>>, String>; 3] = [Ok(Some(Some(false))), Ok(Some(None)), Ok(None)];
    for flag in flags {
        let starts = vec![
            get_all_users(&caller()),
            update_user_role(&caller(), "t".to_string(), RoleUpdate { is_admin: true }),
            delete_user(&caller(), "t".to_string()),
            get_user_collection_admin(&caller(), "t".to_string()),
            remove_card_from_user(&caller(), "t".to_string(), "c".to_string()),
        ];
        for start in starts {
            let flow = looked_up(start);
            let (next, command) = flow.advance(AdminEvent::AdminFlag(flag.clone()));
            assert!(matches!(next, AdminFlow::Finished));
            let error = refusal(command);
            assert_eq!(error, AdminError::NotAdmin);
            assert_eq!(error.status(), 403);
            assert_eq!(error.to_api_error().message, "Brak uprawnień administratora");
        }
    }
}

#[test]
fn failed_flag_lookup_is_a_500() {
    let flow = looked_up(delete_user(&caller(), "t".to_string()));
    let (_, command) = flow.advance(AdminEvent::AdminFlag(Err("conn".to_string())));
    let error = refusal(command);
    assert_eq!(error, AdminError::PrivilegeCheckFailed);
    let api = error.to_api_error();
    assert_eq!(api.status, 500);
    assert_eq!(api.message, "Błąd bazy danych przy sprawdzaniu uprawnień");
}

#[test]
fn admin_lists_users() {
    let flow = looked_up(get_all_users(&caller()));
    let (flow, command) = flow.advance(AdminEvent::AdminFlag(Ok(Some(Some(true)))));
    assert!(matches!(command, AdminCommand::Run(AdminRequest::ListUsers)));
    let users = vec![User {
        id: 1,
        clerk_id: "boss".to_string(),
        email: "oak@lab.pl".to_string(),
        is_admin: Some(true),
        created_at: None,
    }];
    let (flow, command) = flow.advance(AdminEvent::RequestDone(Ok(AdminPayload::Users(users))));
    assert!(matches!(flow, AdminFlow::Finished));
    match command {
        AdminCommand::Reply(Ok(AdminPayload::Users(list))) => {
            assert_eq!(list.len(), 1);
            assert_eq!(list[0].clerk_id, "boss");
        }
        _ => panic!("expected the users"),
    }
}

#[test]
fn admin_updates_a_role() {
    let flow = looked_up(update_user_role(&caller(), "ash".to_string(), RoleUpdate { is_admin: false }));
    let (flow, command) = flow.advance(AdminEvent::AdminFlag(Ok(Some(Some(true)))));
    match command {
        AdminCommand::Run(AdminRequest::SetRole { target_clerk_id, is_admin }) => {
            assert_eq!(target_clerk_id, "ash");
            assert!(!is_admin);
        }
        _ => panic!("expected the role update"),
    }
    let (_, command) = flow.advance(AdminEvent::RequestDone(Ok(AdminPayload::Done)));
    assert!(matches!(command, AdminCommand::Reply(Ok(AdminPayload::Done))));
}

#[test]
fn admin_views_and_edits_a_collection() {
    let flow = looked_up(get_user_collection_admin(&caller(), "ash".to_string()));
    let (flow, command) = flow.advance(AdminEvent::AdminFlag(Ok(Some(Some(true)))));
    assert!(matches!(command, AdminCommand::Run(AdminRequest::ViewCollection { .. })));
    let cards = vec![UserCardDto { id: "x".to_string(), local_id: None, name: "Eevee".to_string(), image: None }];
    let (_, command) = flow.advance(AdminEvent::RequestDone(Ok(AdminPayload::Cards(cards))));
    assert!(matches!(command, AdminCommand::Reply(Ok(AdminPayload::Cards(_)))));

    let flow = looked_up(remove_card_from_user(&caller(), "ash".to_string(), "base1-4".to_string()));
    let (_, command) = flow.advance(AdminEvent::AdminFlag(Ok(Some(Some(true)))));
    match command {
        AdminCommand::Run(AdminRequest::RemoveCard { target_clerk_id, card_id }) => {
            assert_eq!(target_clerk_id, "ash");
            assert_eq!(card_id, "base1-4");
        }
        _ => panic!("expected the card removal"),
    }
}

#[test]
fn failed_operations_have_their_own_messages() {
    let cases = vec![
        (get_all_users(&caller()), AdminKind::ListUsers, "Błąd pobierania"),
        (update_user_role(&caller(), "t".to_string(), RoleUpdate { is_admin: true }), AdminKind::SetRole, "Błąd aktualizacji"),
        (delete_user(&caller(), "t".to_string()), AdminKind::DeleteUser, "Błąd usuwania"),
        (get_user_collection_admin(&caller(), "t".to_string()), AdminKind::ViewCollection, "Błąd kolekcji"),
        (remove_card_from_user(&caller(), "t".to_string(), "c".to_string()), AdminKind::RemoveCard, "Błąd usunięcia karty"),
    ];
    for (start, kind, message) in cases {
        let flow = looked_up(start);
        let (flow, _) = flow.advance(AdminEvent::AdminFlag(Ok(Some(Some(true)))));
        let (_, command) = flow.advance(AdminEvent::RequestDone(Err("boom".to_string())));
        let error = refusal(command);
        assert_eq!(error, AdminError::OperationFailed(kind));
        assert_eq!(kind.failure_message(), message);
        let api = error.to_api_error();
        assert_eq!(api.status, 500);
        assert_eq!(api.message, message);
    }
}
