use vstd::prelude::*;

use crate::api::ApiError;
use crate::auth::AuthenticatedUser;
use crate::models::{RoleUpdate, User, UserCardDto};

verus! {

/// An operation that only administrators may perform.
pub enum AdminRequest {
    /// List every user, by id.
    ListUsers,
    /// Grant or withdraw administrator rights of a user.
    SetRole { target_clerk_id: String, is_admin: bool },
    /// Delete a user.
    DeleteUser { target_clerk_id: String },
    /// List the collection of a user, by card name.
    ViewCollection { target_clerk_id: String },
    /// Remove one card from the collection of a user.
    RemoveCard { target_clerk_id: String, card_id: String },
}

/// Which kind of operation a request is, without its arguments.
#[derive(PartialEq, Eq, Structural, Debug, Clone, Copy)]
pub enum AdminKind {
    ListUsers,
    SetRole,
    DeleteUser,
    ViewCollection,
    RemoveCard,
}

/// What a finished operation hands back.
pub enum AdminPayload {
    Users(Vec<User>),
    Cards(Vec<UserCardDto>),
    /// The operation changed the database and returns no data.
    Done,
}

/// Why an administrator operation was refused or failed.
#[derive(PartialEq, Eq, Structural, Debug, Clone, Copy)]
pub enum AdminError {
    /// The lookup of the caller's administrator flag failed (500).
    PrivilegeCheckFailed,
    /// The caller is not an administrator (403).
    NotAdmin,
    /// The operation itself failed in the database (500).
    OperationFailed(AdminKind),
}

/// An administrator request in progress.
pub enum AdminFlow {
    /// Waiting for the caller's administrator flag; holds the operation to run.
    AwaitingPrivilege { request: AdminRequest },
    /// Waiting for the operation's outcome.
    AwaitingResult { kind: AdminKind },
    /// Answered.
    Finished,
}

/// What the server does next for an administrator request.
pub enum AdminCommand {
    /// Read the `is_admin` column of the user with this clerk id.
    LookUpAdminFlag { clerk_id: String },
    /// Run the operation.
    Run(AdminRequest),
    /// Answer the request.
    Reply(Result<AdminPayload, AdminError>),
}

/// A database outcome that an administrator request waits on.
pub enum AdminEvent {
    /// The `is_admin` lookup: `Ok(None)` when the caller has no row,
    /// `Ok(Some(None))` when the column is NULL, or the database's error text.
    AdminFlag(Result<Option<Option<bool>>, String>),
    /// The operation's outcome, or the database's error text.
    RequestDone(Result<AdminPayload, String>),
}

/// The kind of a request.
pub open spec fn kind_of(request: AdminRequest) -> AdminKind {
    match request {
        AdminRequest::ListUsers => AdminKind::ListUsers,
        AdminRequest::SetRole { .. } => AdminKind::SetRole,
        AdminRequest::DeleteUser { .. } => AdminKind::DeleteUser,
        AdminRequest::ViewCollection { .. } => AdminKind::ViewCollection,
        AdminRequest::RemoveCard { .. } => AdminKind::RemoveCard,
    }
}

/// Whether a payload is what an operation of this kind hands back: users
/// for a listing of users, cards for a collection, nothing otherwise.
pub open spec fn payload_fits(kind: AdminKind, payload: AdminPayload) -> bool {
    match kind {
        AdminKind::ListUsers => payload is Users,
        AdminKind::ViewCollection => payload is Cards,
        _ => payload is Done,
    }
}

/// The decision on the caller's administrator flag: only a flag that is
/// present and true lets the request through.
pub open spec fn privilege_decision(flag: Result<Option<Option<bool>>, String>) -> Result<
    (),
    AdminError,
> {
    match flag {
        Err(_) => Err(AdminError::PrivilegeCheckFailed),
        Ok(Some(Some(true))) => Ok(()),
        Ok(_) => Err(AdminError::NotAdmin),
    }
}

impl AdminFlow {
    /// Whether the flow waits on this event: the flag while the privilege
    /// is checked, an outcome of the right shape while the operation runs.
    pub open spec fn accepts(self, event: AdminEvent) -> bool {
        match self {
            AdminFlow::AwaitingPrivilege { .. } => event is AdminFlag,
            AdminFlow::AwaitingResult { kind } => match event {
                AdminEvent::RequestDone(Ok(payload)) => payload_fits(kind, payload),
                AdminEvent::RequestDone(Err(_)) => true,
                AdminEvent::AdminFlag(_) => false,
            },
            AdminFlow::Finished => false,
        }
    }
}

/// The next flow and command after an accepted event.
pub open spec fn admin_next(flow: AdminFlow, event: AdminEvent) -> (AdminFlow, AdminCommand) {
    match (flow, event) {
        (AdminFlow::AwaitingPrivilege { request }, AdminEvent::AdminFlag(flag)) => match privilege_decision(flag) {
            Ok(()) => (AdminFlow::AwaitingResult { kind: kind_of(request) }, AdminCommand::Run(request)),
            Err(e) => (AdminFlow::Finished, AdminCommand::Reply(Err(e))),
        },
        (AdminFlow::AwaitingResult { kind }, AdminEvent::RequestDone(outcome)) => match outcome {
            Ok(payload) => (AdminFlow::Finished, AdminCommand::Reply(Ok(payload))),
            Err(_) => (AdminFlow::Finished, AdminCommand::Reply(Err(AdminError::OperationFailed(kind)))),
        },
        _ => (AdminFlow::Finished, AdminCommand::Reply(Err(AdminError::NotAdmin))),
    }
}

/// The flow and command that start an administrator request: the caller's
/// flag is looked up first.
pub open spec fn admin_start(caller: AuthenticatedUser, request: AdminRequest) -> (
    AdminFlow,
    AdminCommand,
) {
    (
        AdminFlow::AwaitingPrivilege { request },
        AdminCommand::LookUpAdminFlag { clerk_id: caller.clerk_id },
    )
}

impl AdminKind {
    /// The text of the answer when an operation of this kind fails.
    pub fn failure_message(&self) -> (res: String)
        ensures
            *self == AdminKind::ListUsers ==> res@ == "Błąd pobierania"@,
            *self == AdminKind::SetRole ==> res@ == "Błąd aktualizacji"@,
            *self == AdminKind::DeleteUser ==> res@ == "Błąd usuwania"@,
            *self == AdminKind::ViewCollection ==> res@ == "Błąd kolekcji"@,
            *self == AdminKind::RemoveCard ==> res@ == "Błąd usunięcia karty"@,
    {
        match self {
            AdminKind::ListUsers => "Błąd pobierania".to_string(),
            AdminKind::SetRole => "Błąd aktualizacji".to_string(),
            AdminKind::DeleteUser => "Błąd usuwania".to_string(),
            AdminKind::ViewCollection => "Błąd kolekcji".to_string(),
            AdminKind::RemoveCard => "Błąd usunięcia karty".to_string(),
        }
    }
}

impl AdminError {
    /// The HTTP status of the answer.
    pub fn status(&self) -> (res: u16)
        ensures
            res == (if *self == AdminError::NotAdmin { 403u16 } else { 500u16 }),
    {
        match self {
            AdminError::NotAdmin => 403,
            _ => 500,
        }
    }

    /// The error as an HTTP answer.
    pub fn to_api_error(&self) -> (res: ApiError)
        ensures
            res.status == (if *self == AdminError::NotAdmin { 403u16 } else { 500u16 }),
            *self == AdminError::PrivilegeCheckFailed ==> res.message@
                == "Błąd bazy danych przy sprawdzaniu uprawnień"@,
            *self == AdminError::NotAdmin ==> res.message@ == "Brak uprawnień administratora"@,
            *self == AdminError::OperationFailed(AdminKind::ListUsers) ==> res.message@
                == "Błąd pobierania"@,
            *self == AdminError::OperationFailed(AdminKind::SetRole) ==> res.message@
                == "Błąd aktualizacji"@,
            *self == AdminError::OperationFailed(AdminKind::DeleteUser) ==> res.message@
                == "Błąd usuwania"@,
            *self == AdminError::OperationFailed(AdminKind::ViewCollection) ==> res.message@
                == "Błąd kolekcji"@,
            *self == AdminError::OperationFailed(AdminKind::RemoveCard) ==> res.message@
                == "Błąd usunięcia karty"@,
    {
        let message = match self {
            AdminError::PrivilegeCheckFailed => "Błąd bazy danych przy sprawdzaniu uprawnień".to_string(),
            AdminError::NotAdmin => "Brak uprawnień administratora".to_string(),
            AdminError::OperationFailed(kind) => kind.failure_message(),
        };
        ApiError { status: self.status(), message }
    }
}

/// Decides on the caller's administrator flag: `Ok` only when it is present
/// and true, `NotAdmin` when the caller has no row or the flag is false or
/// NULL, `PrivilegeCheckFailed` when the lookup failed.
pub fn check_is_admin(flag: Result<Option<Option<bool>>, String>) -> (res: Result<(), AdminError>)
    ensures
        res == privilege_decision(flag),
{
    match flag {
        Err(_) => Err(AdminError::PrivilegeCheckFailed),
        Ok(Some(Some(true))) => Ok(()),
        Ok(_) => Err(AdminError::NotAdmin),
    }
}

fn request_kind(request: &AdminRequest) -> (res: AdminKind)
    ensures
        res == kind_of(*request),
{
    match request {
        AdminRequest::ListUsers => AdminKind::ListUsers,
        AdminRequest::SetRole { .. } => AdminKind::SetRole,
        AdminRequest::DeleteUser { .. } => AdminKind::DeleteUser,
        AdminRequest::ViewCollection { .. } => AdminKind::ViewCollection,
        AdminRequest::RemoveCard { .. } => AdminKind::RemoveCard,
    }
}

fn start(auth_user: &AuthenticatedUser, request: AdminRequest) -> (res: (AdminFlow, AdminCommand))
    ensures
        res == admin_start(*auth_user, request),
{
    (
        AdminFlow::AwaitingPrivilege { request },
        AdminCommand::LookUpAdminFlag { clerk_id: auth_user.clerk_id.clone() },
    )
}

/// Starts listing every user for `auth_user`.
pub fn get_all_users(auth_user: &AuthenticatedUser) -> (res: (AdminFlow, AdminCommand))
    ensures
        res == admin_start(*auth_user, AdminRequest::ListUsers),
{
    start(auth_user, AdminRequest::ListUsers)
}

/// Starts setting the administrator flag of `target_clerk_id` to `payload.is_admin`.
pub fn update_user_role(
    auth_user: &AuthenticatedUser,
    target_clerk_id: String,
    payload: RoleUpdate,
) -> (res: (AdminFlow, AdminCommand))
    ensures
        res == admin_start(
            *auth_user,
            AdminRequest::SetRole { target_clerk_id, is_admin: payload.is_admin },
        ),
{
    start(auth_user, AdminRequest::SetRole { target_clerk_id, is_admin: payload.is_admin })
}

/// Starts deleting the user `target_clerk_id`.
pub fn delete_user(auth_user: &AuthenticatedUser, target_clerk_id: String) -> (res: (
    AdminFlow,
    AdminCommand,
))
    ensures
        res == admin_start(*auth_user, AdminRequest::DeleteUser { target_clerk_id }),
{
    start(auth_user, AdminRequest::DeleteUser { target_clerk_id })
}

/// Starts listing the collection of `target_clerk_id`.
pub fn get_user_collection_admin(auth_user: &AuthenticatedUser, target_clerk_id: String) -> (res: (
    AdminFlow,
    AdminCommand,
))
    ensures
        res == admin_start(*auth_user, AdminRequest::ViewCollection { target_clerk_id }),
{
    start(auth_user, AdminRequest::ViewCollection { target_clerk_id })
}

/// Starts removing the card `card_id` from the collection of `target_clerk_id`.
pub fn remove_card_from_user(
    auth_user: &AuthenticatedUser,
    target_clerk_id: String,
    card_id: String,
) -> (res: (AdminFlow, AdminCommand))
    ensures
        res == admin_start(*auth_user, AdminRequest::RemoveCard { target_clerk_id, card_id }),
{
    start(auth_user, AdminRequest::RemoveCard { target_clerk_id, card_id })
}

impl AdminFlow {
    /// Whether the flow waits on this event, as `accepts` says.
    pub fn waits_on(&self, event: &AdminEvent) -> (res: bool)
        ensures
            res == self.accepts(*event),
            *self matches AdminFlow::AwaitingResult { kind } ==> (*event matches AdminEvent::RequestDone(
                Ok(payload),
            ) ==> (res <==> ((kind == AdminKind::ListUsers && payload is Users) || (kind
                == AdminKind::ViewCollection && payload is Cards) || (kind != AdminKind::ListUsers
                && kind != AdminKind::ViewCollection && payload is Done)))),
            (*self is AwaitingResult && *event matches AdminEvent::RequestDone(Err(_))) ==> res,
    {
        match self {
            AdminFlow::AwaitingPrivilege { .. } => match event {
                AdminEvent::AdminFlag(_) => true,
                AdminEvent::RequestDone(_) => false,
            },
            AdminFlow::AwaitingResult { kind } => match event {
                AdminEvent::RequestDone(Ok(payload)) => match payload {
                    AdminPayload::Users(_) => *kind == AdminKind::ListUsers,
                    AdminPayload::Cards(_) => *kind == AdminKind::ViewCollection,
                    AdminPayload::Done => *kind != AdminKind::ListUsers && *kind != AdminKind::ViewCollection,
                },
                AdminEvent::RequestDone(Err(_)) => true,
                AdminEvent::AdminFlag(_) => false,
            },
            AdminFlow::Finished => false,
        }
    }

    /// Takes the event this flow waits on and gives the next flow and command.
    pub fn advance(self, event: AdminEvent) -> (res: (AdminFlow, AdminCommand))
        requires
            self.accepts(event),
        ensures
            res == admin_next(self, event),
    {
        match self {
            AdminFlow::AwaitingPrivilege { request } => match event {
                AdminEvent::AdminFlag(flag) => match check_is_admin(flag) {
                    Ok(()) => {
                        let kind = request_kind(&request);
                        (AdminFlow::AwaitingResult { kind }, AdminCommand::Run(request))
                    },
                    Err(e) => (AdminFlow::Finished, AdminCommand::Reply(Err(e))),
                },
                AdminEvent::RequestDone(_) => (AdminFlow::Finished, AdminCommand::Reply(Err(AdminError::NotAdmin))),
            },
            AdminFlow::AwaitingResult { kind } => match event {
                AdminEvent::RequestDone(Ok(payload)) => (AdminFlow::Finished, AdminCommand::Reply(Ok(payload))),
                AdminEvent::RequestDone(Err(_)) => (
                    AdminFlow::Finished,
                    AdminCommand::Reply(Err(AdminError::OperationFailed(kind))),
                ),
                AdminEvent::AdminFlag(_) => (AdminFlow::Finished, AdminCommand::Reply(Err(AdminError::NotAdmin))),
            },
            AdminFlow::Finished => (AdminFlow::Finished, AdminCommand::Reply(Err(AdminError::NotAdmin))),
        }
    }
}

/// Only administrators reach the database with an administrator operation:
/// a step runs an operation only when the flow was waiting on the caller's
/// flag and the flag came back present and true, and the operation it runs
/// is the one the request was started with.
pub proof fn lemma_only_admins_run(flow: AdminFlow, event: AdminEvent)
    requires
        flow.accepts(event),
    ensures
        admin_next(flow, event).1 is Run ==> {
            &&& flow matches AdminFlow::AwaitingPrivilege { request }
            &&& event == AdminEvent::AdminFlag(Ok(Some(Some(true))))
            &&& admin_next(flow, event).1 == AdminCommand::Run(request)
        },
{
}

/// A caller whose flag is missing, NULL or false is answered 403 and nothing
/// runs, whatever the operation; a failed flag lookup is answered 500
/// ("Błąd bazy danych przy sprawdzaniu uprawnień") and nothing runs either.
pub proof fn lemma_refused_callers(
    caller: AuthenticatedUser,
    request: AdminRequest,
    flag: Result<Option<Option<bool>>, String>,
)
    requires
        flag != Ok::<Option<Option<bool>>, String>(Some(Some(true))),
    ensures
        ({
            let (f0, c0) = admin_start(caller, request);
            let (f1, c1) = admin_next(f0, AdminEvent::AdminFlag(flag));
            &&& c0 == AdminCommand::LookUpAdminFlag { clerk_id: caller.clerk_id }
            &&& f1 == AdminFlow::Finished
            &&& flag is Ok ==> c1 == AdminCommand::Reply(Err(AdminError::NotAdmin))
            &&& flag is Err ==> c1 == AdminCommand::Reply(Err(AdminError::PrivilegeCheckFailed))
        }),
{
}

/// For an administrator, the request runs and its outcome is the answer:
/// the data it handed back, or the failure of its kind.
pub proof fn lemma_admin_requests_answered(
    caller: AuthenticatedUser,
    request: AdminRequest,
    outcome: Result<AdminPayload, String>,
)
    ensures
        ({
            let (f0, c0) = admin_start(caller, request);
            let (f1, c1) = admin_next(f0, AdminEvent::AdminFlag(Ok(Some(Some(true)))));
            let (f2, c2) = admin_next(f1, AdminEvent::RequestDone(outcome));
            &&& c1 == AdminCommand::Run(request)
            &&& f1 == AdminFlow::AwaitingResult { kind: kind_of(request) }
            &&& f2 == AdminFlow::Finished
            &&& outcome matches Ok(payload) ==> c2 == AdminCommand::Reply(Ok(payload))
            &&& outcome is Err ==> c2 == AdminCommand::Reply(
                Err(AdminError::OperationFailed(kind_of(request))),
            )
        }),
{
}

/// Once the caller is confirmed as administrator, the request waits on the
/// outcome of its own operation: it accepts any failure, and of the
/// successes exactly the data that operation hands back, the users for a
/// listing of users, the cards for a collection, and nothing else for the
/// operations that change the database.
pub proof fn lemma_confirmed_request_accepts_its_outcome(
    caller: AuthenticatedUser,
    request: AdminRequest,
    payload: AdminPayload,
    error: String,
)
    ensures
        ({
            let f1 = admin_next(
                admin_start(caller, request).0,
                AdminEvent::AdminFlag(Ok(Some(Some(true)))),
            ).0;
            &&& f1.accepts(AdminEvent::RequestDone(Err(error)))
            &&& f1.accepts(AdminEvent::RequestDone(Ok(payload))) <==> match request {
                AdminRequest::ListUsers => payload is Users,
                AdminRequest::ViewCollection { .. } => payload is Cards,
                _ => payload is Done,
            }
            &&& !f1.accepts(AdminEvent::AdminFlag(Ok(Some(Some(true)))))
        }),
{
}

/// A request first waits on the caller's flag, whatever the flag turns out
/// to be, and on nothing else; an answered request waits on nothing.
pub proof fn lemma_requests_wait_on_the_flag_first(
    caller: AuthenticatedUser,
    request: AdminRequest,
    flag: Result<Option<Option<bool>>, String>,
    outcome: Result<AdminPayload, String>,
)
    ensures
        admin_start(caller, request).0.accepts(AdminEvent::AdminFlag(flag)),
        !admin_start(caller, request).0.accepts(AdminEvent::RequestDone(outcome)),
        !AdminFlow::Finished.accepts(AdminEvent::AdminFlag(flag)),
        !AdminFlow::Finished.accepts(AdminEvent::RequestDone(outcome)),
{
}

/// A confirmed request whose operation fails is answered with the failure
/// of that very operation, each operation with its own.
pub proof fn lemma_failed_operation_names_itself(
    caller: AuthenticatedUser,
    request: AdminRequest,
    error: String,
)
    ensures
        ({
            let f1 = admin_next(
                admin_start(caller, request).0,
                AdminEvent::AdminFlag(Ok(Some(Some(true)))),
            ).0;
            let c2 = admin_next(f1, AdminEvent::RequestDone(Err(error))).1;
            &&& request is ListUsers ==> c2 == AdminCommand::Reply(
                Err(AdminError::OperationFailed(AdminKind::ListUsers)),
            )
            &&& request is SetRole ==> c2 == AdminCommand::Reply(
                Err(AdminError::OperationFailed(AdminKind::SetRole)),
            )
            &&& request is DeleteUser ==> c2 == AdminCommand::Reply(
                Err(AdminError::OperationFailed(AdminKind::DeleteUser)),
            )
            &&& request is ViewCollection ==> c2 == AdminCommand::Reply(
                Err(AdminError::OperationFailed(AdminKind::ViewCollection)),
            )
            &&& request is RemoveCard ==> c2 == AdminCommand::Reply(
                Err(AdminError::OperationFailed(AdminKind::RemoveCard)),
            )
        }),
{
}

} // verus!
