use vstd::prelude::*;
use vstd::string::*;

use crate::api::ApiError;
use crate::decimal::{decimal_text, format_i32};
use crate::models::User;

verus! {

/// The answer to a profile request once the caller's row has been inserted
/// or updated: that row, or a 500 that carries the database's error text.
pub fn get_profile(stored: Result<User, String>) -> (res: Result<User, ApiError>)
    ensures
        match stored {
            Ok(user) => res == Ok::<User, ApiError>(user),
            Err(e) => res matches Err(err) && err.status == 500 && err.message@
                == "Błąd bazy danych: "@ + e@,
        },
{
    match stored {
        Ok(user) => Ok(user),
        Err(e) => Err(ApiError { status: 500, message: "Błąd bazy danych: ".to_string().concat(e.as_str()) }),
    }
}

/// The text of the answer when no user has the id `user_id`.
pub open spec fn user_not_found_message(user_id: i32) -> Seq<char> {
    "Użytkownik z ID "@ + decimal_text(user_id as int) + " nie został znaleziony"@
}

/// The answer to a request for the user with id `user_id` once the database
/// has been asked: the user, a 404 naming the id when there is none, or a
/// 500 when the query failed.
pub fn get_user(user_id: i32, found: Result<Option<User>, String>) -> (res: Result<User, ApiError>)
    ensures
        match found {
            Ok(Some(user)) => res == Ok::<User, ApiError>(user),
            Ok(None) => res matches Err(err) && err.status == 404 && err.message@
                == user_not_found_message(user_id),
            Err(_) => res matches Err(err) && err.status == 500 && err.message@
                == "Wewnętrzny błąd serwera"@,
        },
{
    match found {
        Ok(Some(user)) => Ok(user),
        Ok(None) => {
            let id = format_i32(user_id);
            let message = "Użytkownik z ID ".to_string().concat(id.as_str()).concat(" nie został znaleziony");
            Err(ApiError { status: 404, message })
        },
        Err(_) => Err(ApiError::new(500, "Wewnętrzny błąd serwera")),
    }
}

} // verus!
