use vstd::prelude::*;

verus! {

/// A row of the `users` table.
pub struct User {
    pub id: i32,
    pub clerk_id: String,
    pub email: String,
    pub is_admin: Option<bool>,
    /// When the row was created, in microseconds since the Unix epoch (UTC).
    pub created_at: Option<i64>,
}

/// A card in the collection of one user.
pub struct UserCardDto {
    /// The card's identifier, such as `base1-4`.
    pub id: String,
    /// The card's number within its set, absent for older rows.
    pub local_id: Option<String>,
    pub name: String,
    pub image: Option<String>,
}

/// A short description of a card from the card catalogue.
pub struct CardBriefResponse {
    pub id: String,
    pub local_id: String,
    pub name: String,
    pub image: String,
}

/// The body of a request that grants or withdraws administrator rights.
pub struct RoleUpdate {
    pub is_admin: bool,
}

} // verus!
