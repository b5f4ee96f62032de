use poke_collection::models::User;
use poke_collection::profile::{get_profile, get_user};

fn user(id: i32) -> User {
    User {
        id,
        clerk_id: "user_5".to_string(),
        email: "brock@pewter.pl".to_string(),
        is_admin: None,
        created_at: Some(1_700_000_000_000_000),
    }
}

#[test]
fn profile_is_returned() {
    let reply = get_profile(Ok(user(5))).ok().unwrap();
    assert_eq!(reply.id, 5);
    assert_eq!(reply.email, "brock@pewter.pl");
}

#[test]
fn profile_error_carries_the_database_text() {
    let error = get_profile(Err("duplicate key".to_string())).err().unwrap();
    assert_eq!(error.status, 500);
    assert_eq!(error.message, "Błąd bazy danych: duplicate key");
}

#[test]
fn user_is_found() {
    let reply = get_user(5, Ok(Some(user(5)))).ok().unwrap();
    assert_eq!(reply.id, 5);
}

#[test]
fn missing_user_is_a_404_naming_the_id() {
    let error = get_user(42, Ok(None)).err().unwrap();
    assert_eq!(error.status, 404);
    assert_eq!(error.message, "Użytkownik z ID 42 nie został znaleziony");
    let error = get_user(-7, Ok(None)).err().unwrap();
    assert_eq!(error.message, "Użytkownik z ID -7 nie został znaleziony");
}

#[test]
fn failed_user_query_is_a_500() {
    let error = get_user(1, Err("io".to_string())).err().unwrap();
    assert_eq!(error.status, 500);
    assert_eq!(error.message, "Wewnętrzny błąd serwera");
}
