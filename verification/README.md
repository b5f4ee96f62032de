# poke_collection

The logic of a small web service for a Pokémon card collection, verified with
Verus, and the server around it.

- `src/` is the verified library:
  - `auth` — reading the caller from an `Authorization: Bearer` header and a
    JWT signed with RS256 (`jwt` holds the calls into `jsonwebtoken` and
    `serde_json`);
  - `admin` — the administrator operations as a state machine: the caller's
    `is_admin` flag is looked up first and only a true flag lets an operation run;
  - `collection` — adding a card to one's collection (three database steps,
    201 for a new card, 208 for one already owned) and listing it;
  - `profile` — the answers of the profile and user lookups;
  - `catalog` — the card-search filter and the answers of failed catalogue calls;
  - `config` — the token settings, with their defaults;
  - `decimal` — integer text as `Display` writes it and `i64::from_str` reads it;
  - `models`, `api` — the data and the error answer.
- `app/` is the axum server: routing, the database queries (sqlx), the calls
  to PokeAPI (rustemon) and TCGdex, and the serde copies of the library's types.
  It drives the library's state machines with the outcomes of the queries.
- `tests/` runs the library on concrete values.
