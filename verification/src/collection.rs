use vstd::prelude::*;

use crate::api::ApiError;
use crate::auth::AuthenticatedUser;
use crate::models::{CardBriefResponse, UserCardDto};

verus! {

/// Which database step of adding a card failed.
#[derive(PartialEq, Eq, Structural, Debug, Clone, Copy)]
pub enum AddCardError {
    /// Making sure the caller has a row in `users`.
    AccountCheckFailed,
    /// Storing the card in `cards`.
    CardSaveFailed,
    /// Linking the card to the caller in `user_cards`.
    LinkFailed,
}

/// The answer to a request to add a card to the caller's collection.
#[derive(PartialEq, Eq, Structural, Debug, Clone, Copy)]
pub enum AddCardReply {
    /// The card was added (201).
    Created,
    /// The card was already in the collection (208).
    AlreadyInCollection,
    /// A database step failed (500).
    Failed(AddCardError),
}

/// The step that an add-card request waits on.
#[derive(PartialEq, Eq, Structural, Debug, Clone, Copy)]
pub enum AddCardStep {
    EnsureUser,
    StoreCard,
    LinkCard,
    Finished,
}

/// An add-card request in progress: who asks, for which card, and the step
/// whose database outcome comes next.
pub struct AddCardFlow {
    pub user: AuthenticatedUser,
    pub card: CardBriefResponse,
    pub step: AddCardStep,
}

/// What the server does next for an add-card request.
pub enum CollectionCommand {
    /// Insert the caller into `users`, leaving an existing row as it is.
    EnsureUser { clerk_id: String, email: String },
    /// Insert the card into `cards`, leaving an existing row as it is.
    StoreCard { id: String, name: String, image: String },
    /// Link the card to the caller in `user_cards`, leaving an existing link
    /// as it is; the outcome is the number of rows inserted.
    LinkCard { clerk_id: String, card_id: String },
    /// Answer the request.
    Reply(AddCardReply),
}

impl AddCardError {
    /// The text of the error answer.
    pub fn message(&self) -> (res: String)
        ensures
            *self == AddCardError::AccountCheckFailed ==> res@ == "Błąd weryfikacji konta w bazie"@,
            *self == AddCardError::CardSaveFailed ==> res@ == "Błąd podczas zapisu karty"@,
            *self == AddCardError::LinkFailed ==> res@ == "Błąd przypisywania karty do usera"@,
    {
        match self {
            AddCardError::AccountCheckFailed => "Błąd weryfikacji konta w bazie".to_string(),
            AddCardError::CardSaveFailed => "Błąd podczas zapisu karty".to_string(),
            AddCardError::LinkFailed => "Błąd przypisywania karty do usera".to_string(),
        }
    }

    /// The error as an HTTP answer; each of them is a 500.
    pub fn to_api_error(&self) -> (res: ApiError)
        ensures
            res.status == 500,
            *self == AddCardError::AccountCheckFailed ==> res.message@
                == "Błąd weryfikacji konta w bazie"@,
            *self == AddCardError::CardSaveFailed ==> res.message@ == "Błąd podczas zapisu karty"@,
            *self == AddCardError::LinkFailed ==> res.message@ == "Błąd przypisywania karty do usera"@,
    {
        ApiError { status: 500, message: self.message() }
    }
}

impl AddCardReply {
    /// The HTTP status of the answer.
    pub fn status(&self) -> (res: u16)
        ensures
            res == match *self {
                AddCardReply::Created => 201u16,
                AddCardReply::AlreadyInCollection => 208u16,
                AddCardReply::Failed(_) => 500u16,
            },
    {
        match self {
            AddCardReply::Created => 201,
            AddCardReply::AlreadyInCollection => 208,
            AddCardReply::Failed(_) => 500,
        }
    }
}

/// The answer once the link step has inserted `rows` rows.
pub open spec fn link_reply(rows: u64) -> AddCardReply {
    if rows == 0 {
        AddCardReply::AlreadyInCollection
    } else {
        AddCardReply::Created
    }
}

/// The flow and command that start an add-card request.
pub open spec fn add_card_start(user: AuthenticatedUser, card: CardBriefResponse) -> (
    AddCardFlow,
    CollectionCommand,
) {
    (
        AddCardFlow { user, card, step: AddCardStep::EnsureUser },
        CollectionCommand::EnsureUser { clerk_id: user.clerk_id, email: user.email },
    )
}

/// The flow and command after the outcome of the step that `flow` waits on:
/// a failed step ends the request with its error, a successful one moves on
/// to the next step, and the link step's row count decides the answer.
pub open spec fn add_card_next(flow: AddCardFlow, outcome: Result<u64, String>) -> (
    AddCardFlow,
    CollectionCommand,
) {
    let finished = AddCardFlow { step: AddCardStep::Finished, ..flow };
    match flow.step {
        AddCardStep::EnsureUser => match outcome {
            Err(_) => (
                finished,
                CollectionCommand::Reply(AddCardReply::Failed(AddCardError::AccountCheckFailed)),
            ),
            Ok(_) => (
                AddCardFlow { step: AddCardStep::StoreCard, ..flow },
                CollectionCommand::StoreCard {
                    id: flow.card.id,
                    name: flow.card.name,
                    image: flow.card.image,
                },
            ),
        },
        AddCardStep::StoreCard => match outcome {
            Err(_) => (
                finished,
                CollectionCommand::Reply(AddCardReply::Failed(AddCardError::CardSaveFailed)),
            ),
            Ok(_) => (
                AddCardFlow { step: AddCardStep::LinkCard, ..flow },
                CollectionCommand::LinkCard { clerk_id: flow.user.clerk_id, card_id: flow.card.id },
            ),
        },
        _ => match outcome {
            Err(_) => (finished, CollectionCommand::Reply(AddCardReply::Failed(AddCardError::LinkFailed))),
            Ok(rows) => (finished, CollectionCommand::Reply(link_reply(rows))),
        },
    }
}

/// Starts adding `card` to the collection of `auth_user`: the first command
/// makes sure the caller has a row in `users`.
pub fn add_card_to_collection(auth_user: AuthenticatedUser, payload: CardBriefResponse) -> (res: (
    AddCardFlow,
    CollectionCommand,
))
    ensures
        res == add_card_start(auth_user, payload),
{
    let command = CollectionCommand::EnsureUser {
        clerk_id: auth_user.clerk_id.clone(),
        email: auth_user.email.clone(),
    };
    (AddCardFlow { user: auth_user, card: payload, step: AddCardStep::EnsureUser }, command)
}

impl AddCardFlow {
    /// Whether the request still waits on a database outcome.
    pub open spec fn waiting(&self) -> bool {
        self.step != AddCardStep::Finished
    }

    /// Takes the outcome of the step this request waits on (the number of
    /// rows inserted, or the database's error text) and gives the next state
    /// and command.
    pub fn advance(self, outcome: Result<u64, String>) -> (res: (AddCardFlow, CollectionCommand))
        requires
            self.waiting(),
        ensures
            res == add_card_next(self, outcome),
            res.1 is Reply <==> !res.0.waiting(),
            res.0.user == self.user,
            res.0.card == self.card,
    {
        let AddCardFlow { user, card, step } = self;
        match step {
            AddCardStep::EnsureUser => match outcome {
                Err(_) => (
                    AddCardFlow { user, card, step: AddCardStep::Finished },
                    CollectionCommand::Reply(AddCardReply::Failed(AddCardError::AccountCheckFailed)),
                ),
                Ok(_) => {
                    let command = CollectionCommand::StoreCard {
                        id: card.id.clone(),
                        name: card.name.clone(),
                        image: card.image.clone(),
                    };
                    (AddCardFlow { user, card, step: AddCardStep::StoreCard }, command)
                },
            },
            AddCardStep::StoreCard => match outcome {
                Err(_) => (
                    AddCardFlow { user, card, step: AddCardStep::Finished },
                    CollectionCommand::Reply(AddCardReply::Failed(AddCardError::CardSaveFailed)),
                ),
                Ok(_) => {
                    let command = CollectionCommand::LinkCard {
                        clerk_id: user.clerk_id.clone(),
                        card_id: card.id.clone(),
                    };
                    (AddCardFlow { user, card, step: AddCardStep::LinkCard }, command)
                },
            },
            _ => match outcome {
                Err(_) => (
                    AddCardFlow { user, card, step: AddCardStep::Finished },
                    CollectionCommand::Reply(AddCardReply::Failed(AddCardError::LinkFailed)),
                ),
                Ok(rows) => {
                    let reply = if rows == 0 {
                        AddCardReply::AlreadyInCollection
                    } else {
                        AddCardReply::Created
                    };
                    (AddCardFlow { user, card, step: AddCardStep::Finished }, CollectionCommand::Reply(reply))
                },
            },
        }
    }
}

/// The answer that an add-card request gets when its three database steps
/// have these outcomes: the first failure decides the error, and when all
/// succeed the link step's row count decides between 201 and 208.
pub open spec fn add_card_answer(
    ensured: Result<u64, String>,
    stored: Result<u64, String>,
    linked: Result<u64, String>,
) -> AddCardReply {
    if ensured is Err {
        AddCardReply::Failed(AddCardError::AccountCheckFailed)
    } else if stored is Err {
        AddCardReply::Failed(AddCardError::CardSaveFailed)
    } else {
        match linked {
            Err(_) => AddCardReply::Failed(AddCardError::LinkFailed),
            Ok(rows) => link_reply(rows),
        }
    }
}

/// The answer to an add-card request depends only on the outcomes of its
/// database steps, as `add_card_answer` gives it, and the steps run in order:
/// the card is stored only after the caller's account is, and linked only
/// after both; a failed step is the last one. A card that was already in the
/// collection is answered 208, a new one 201.
pub proof fn lemma_add_card_answer(
    user: AuthenticatedUser,
    card: CardBriefResponse,
    ensured: Result<u64, String>,
    stored: Result<u64, String>,
    linked: Result<u64, String>,
)
    ensures
        ({
            let (f0, c0) = add_card_start(user, card);
            let (f1, c1) = add_card_next(f0, ensured);
            let (f2, c2) = add_card_next(f1, stored);
            let (f3, c3) = add_card_next(f2, linked);
            &&& c0 == CollectionCommand::EnsureUser { clerk_id: user.clerk_id, email: user.email }
            &&& ensured is Err ==> !f1.waiting() && c1 == CollectionCommand::Reply(
                add_card_answer(ensured, stored, linked),
            )
            &&& ensured is Ok ==> c1 == CollectionCommand::StoreCard {
                id: card.id,
                name: card.name,
                image: card.image,
            }
            &&& ensured is Ok && stored is Err ==> !f2.waiting() && c2 == CollectionCommand::Reply(
                add_card_answer(ensured, stored, linked),
            )
            &&& ensured is Ok && stored is Ok ==> c2 == CollectionCommand::LinkCard {
                clerk_id: user.clerk_id,
                card_id: card.id,
            }
            &&& ensured is Ok && stored is Ok ==> !f3.waiting() && c3 == CollectionCommand::Reply(
                add_card_answer(ensured, stored, linked),
            )
        }),
{
}

/// An add-card request is answered exactly when it stops waiting: a step
/// that issues a database command leaves the request waiting on that
/// command's outcome, and a reply ends it. The caller and the card stay the
/// same throughout.
pub proof fn lemma_commands_keep_flow_waiting(flow: AddCardFlow, outcome: Result<u64, String>)
    requires
        flow.waiting(),
    ensures
        add_card_next(flow, outcome).1 is Reply <==> !add_card_next(flow, outcome).0.waiting(),
        add_card_next(flow, outcome).0.user == flow.user,
        add_card_next(flow, outcome).0.card == flow.card,
{
}

/// The whole run of an add-card request, step by step: the account step
/// decides whether the card is stored, the store step whether it is linked,
/// and each step that goes on leaves the request waiting for the next
/// outcome. A failure is answered with that step's error; when all three
/// succeed, a link that inserted no row is answered 208 and one that
/// inserted a row 201.
pub proof fn lemma_add_card_run(
    user: AuthenticatedUser,
    card: CardBriefResponse,
    ensured: Result<u64, String>,
    stored: Result<u64, String>,
    linked: Result<u64, String>,
)
    ensures
        ({
            let (f0, c0) = add_card_start(user, card);
            let (f1, c1) = add_card_next(f0, ensured);
            let (f2, c2) = add_card_next(f1, stored);
            let (f3, c3) = add_card_next(f2, linked);
            &&& f0.waiting()
            &&& ensured is Err ==> !f1.waiting() && c1 == CollectionCommand::Reply(
                AddCardReply::Failed(AddCardError::AccountCheckFailed),
            )
            &&& ensured is Ok ==> f1.waiting() && c1 == CollectionCommand::StoreCard {
                id: card.id,
                name: card.name,
                image: card.image,
            }
            &&& ensured is Ok && stored is Err ==> !f2.waiting() && c2 == CollectionCommand::Reply(
                AddCardReply::Failed(AddCardError::CardSaveFailed),
            )
            &&& ensured is Ok && stored is Ok ==> f2.waiting() && c2 == CollectionCommand::LinkCard {
                clerk_id: user.clerk_id,
                card_id: card.id,
            }
            &&& ensured is Ok && stored is Ok && linked is Err ==> !f3.waiting() && c3
                == CollectionCommand::Reply(AddCardReply::Failed(AddCardError::LinkFailed))
            &&& ensured is Ok && stored is Ok && linked == Ok::<u64, String>(0) ==> !f3.waiting()
                && c3 == CollectionCommand::Reply(AddCardReply::AlreadyInCollection)
            &&& ensured is Ok && stored is Ok && (linked matches Ok(rows) && rows > 0) ==> !f3.waiting()
                && c3 == CollectionCommand::Reply(AddCardReply::Created)
        }),
{
}

/// The answer to a request for the caller's own collection: the cards as the
/// database listed them, or a 500 when the query failed.
pub fn get_user_collection(fetched: Result<Vec<UserCardDto>, String>) -> (res: Result<
    Vec<UserCardDto>,
    ApiError,
>)
    ensures
        match fetched {
            Ok(cards) => res == Ok::<Vec<UserCardDto>, ApiError>(cards),
            Err(_) => res matches Err(e) && e.status == 500 && e.message@
                == "nie udało się pobrać kolekcji"@,
        },
{
    match fetched {
        Ok(cards) => Ok(cards),
        Err(_) => Err(ApiError::new(500, "nie udało się pobrać kolekcji")),
    }
}

} // verus!
