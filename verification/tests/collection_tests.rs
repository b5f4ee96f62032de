use poke_collection::auth::AuthenticatedUser;
use poke_collection::collection::{
    add_card_to_collection, get_user_collection, AddCardError, AddCardFlow, AddCardReply,
    CollectionCommand,
};
use poke_collection::models::{CardBriefResponse, UserCardDto};

fn caller() -> AuthenticatedUser {
    AuthenticatedUser { clerk_id: "user_1".to_string(), email: "misty@cerulean.pl".to_string() }
}

fn pikachu() -> CardBriefResponse {
    CardBriefResponse {
        id: "base1-58".to_string(),
        local_id: "58".to_string(),
        name: "Pikachu".to_string(),
        image: "https://assets.tcgdex.net/en/base/base1/58".to_string(),
    }
}

fn reply_of(command: &CollectionCommand) -> Option<AddCardReply> {
    match command {
        CollectionCommand::Reply(reply) => Some(*reply),
        _ => None,
    }
}

fn run(outcomes: [Result<u64, String>; 3]) -> (Vec<CollectionCommand>, AddCardReply) {
    let (mut flow, command) = add_card_to_collection(caller(), pikachu());
    let mut commands = vec![command];
    for outcome in outcomes {
        if let Some(reply) = reply_of(commands.last().unwrap()) {
            return (commands, reply);
        }
        let (next, command): (AddCardFlow, CollectionCommand) = flow.advance(outcome);
        flow = next;
        commands.push(command);
    }
    let reply = reply_of(commands.last().unwrap()).unwrap();
    (commands, reply)
}

#[test]
fn new_card_is_created() {
    let (commands, reply) = run([Ok(1), Ok(1), Ok(1)]);
    assert_eq!(reply, AddCardReply::Created);
    assert_eq!(reply.status(), 201);
    assert_eq!(commands.len(), 4);
    match &commands[0] {
        CollectionCommand::EnsureUser { clerk_id, email } => {
            assert_eq!(clerk_id, "user_1");
            assert_eq!(email, "misty@cerulean.pl");
        }
        _ => panic!("first command must make sure the user exists"),
    }
    match &commands[1] {
        CollectionCommand::StoreCard { id, name, image } => {
            assert_eq!(id, "base1-58");
            assert_eq!(name, "Pikachu");
            assert_eq!(image, "https://assets.tcgdex.net/en/base/base1/58");
        }
        _ => panic!("second command must store the card"),
    }
    match &commands[2] {
        CollectionCommand::LinkCard { clerk_id, card_id } => {
            assert_eq!(clerk_id, "user_1");
            assert_eq!(card_id, "base1-58");
        }
        _ => panic!("third command must link the card"),
    }
}

#[test]
fn card_already_owned_is_reported() {
    let (_, reply) = run([Ok(0), Ok(0), Ok(0)]);
    assert_eq!(reply, AddCardReply::AlreadyInCollection);
    assert_eq!(reply.status(), 208);
}

#[test]
fn existing_user_and_card_rows_do_not_matter() {
    let (_, reply) = run([Ok(0), Ok(0), Ok(1)]);
    assert_eq!(reply, AddCardReply::Created);
}

#[test]
fn failed_account_check_stops_at_once() {
    let (commands, reply) = run([Err("down".to_string()), Ok(1), Ok(1)]);
    assert_eq!(reply, AddCardReply::Failed(AddCardError::AccountCheckFailed));
    assert_eq!(reply.status(), 500);
    assert_eq!(commands.len(), 2);
}

#[test]
fn failed_card_save_stops_before_linking() {
    let (commands, reply) = run([Ok(1), Err("constraint".to_string()), Ok(1)]);
    assert_eq!(reply, AddCardReply::Failed(AddCardError::CardSaveFailed));
    assert_eq!(commands.len(), 3);
}

#[test]
fn failed_link_is_reported() {
    let (_, reply) = run([Ok(1), Ok(1), Err("fk".to_string())]);
    assert_eq!(reply, AddCardReply::Failed(AddCardError::LinkFailed));
}

#[test]
fn add_card_error_answers() {
    let cases = [
        (AddCardError::AccountCheckFailed, "Błąd weryfikacji konta w bazie"),
        (AddCardError::CardSaveFailed, "Błąd podczas zapisu karty"),
        (AddCardError::LinkFailed, "Błąd przypisywania karty do usera"),
    ];
    for (error, message) in cases {
        assert_eq!(error.message(), message);
        let api = error.to_api_error();
        assert_eq!(api.status, 500);
        assert_eq!(api.message, message);
    }
}

#[test]
fn own_collection_is_returned() {
    let cards = vec![UserCardDto {
        id: "base1-4".to_string(),
        local_id: Some("4".to_string()),
        name: "Charizard".to_string(),
        image: None,
    }];
    let reply = get_user_collection(Ok(cards)).ok().unwrap();
    assert_eq!(reply.len(), 1);
    assert_eq!(reply[0].id, "base1-4");
    assert_eq!(reply[0].local_id.as_deref(), Some("4"));
}

#[test]
fn failed_collection_query_is_a_500() {
    let error = get_user_collection(Err("timeout".to_string())).err().unwrap();
    assert_eq!(error.status, 500);
    assert_eq!(error.message, "nie udało się pobrać kolekcji");
}
