use vstd::prelude::*;
use vstd::string::*;

use crate::api::ApiError;

verus! {

/// The catalogue call that failed.
#[derive(PartialEq, Eq, Structural, Debug, Clone, Copy)]
pub enum CatalogFailure {
    /// The Pokémon lookup failed.
    Pokemon,
    /// The blocking card search could not be joined.
    Join,
    /// The card search failed.
    Fetch,
}

/// The text that starts the answer for each failure.
pub open spec fn failure_prefix(failure: CatalogFailure) -> Seq<char> {
    match failure {
        CatalogFailure::Pokemon => "Error: "@,
        CatalogFailure::Join => "Join error: "@,
        CatalogFailure::Fetch => "Fetch error: "@,
    }
}

#[verifier::external_type_specification]
#[verifier::external_body]
pub struct ExCardQuery(tcgdex_api::Query);

/// Whether `c` has Unicode's `White_Space` property, by which `str::split_whitespace`
/// splits.
pub open spec fn is_unicode_whitespace(c: char) -> bool {
    let n = c as int;
    ||| 0x09 <= n <= 0x0d
    ||| n == 0x20
    ||| n == 0x85
    ||| n == 0xa0
    ||| n == 0x1680
    ||| 0x2000 <= n <= 0x200a
    ||| n == 0x2028
    ||| n == 0x2029
    ||| n == 0x202f
    ||| n == 0x205f
    ||| n == 0x3000
}

/// Whether `s` holds a character that is not white space.
pub open spec fn has_non_whitespace(s: Seq<char>) -> bool {
    exists|i: int| 0 <= i < s.len() && !is_unicode_whitespace(#[trigger] s[i])
}

/// The id that a `tcgdex_api::Query` holds (its private field `id`).
pub uninterp spec fn query_id(query: tcgdex_api::Query) -> Seq<char>;

/// The filtering text that a `tcgdex_api::Query` holds (its private field
/// `filtering`).
pub uninterp spec fn query_filtering(query: tcgdex_api::Query) -> Seq<char>;

/// The pagination text that a `tcgdex_api::Query` holds (its private field
/// `pagination`).
pub uninterp spec fn query_pagination(query: tcgdex_api::Query) -> Seq<char>;

/// The sorting text that a `tcgdex_api::Query` holds (its private field
/// `sorting`).
pub uninterp spec fn query_sorting(query: tcgdex_api::Query) -> Seq<char>;

/// `s` without its leading white space.
pub open spec fn skip_whitespace(s: Seq<char>) -> Seq<char>
    decreases s.len(),
{
    if s.len() > 0 && is_unicode_whitespace(s[0]) {
        skip_whitespace(s.skip(1))
    } else {
        s
    }
}

/// The characters of `s` up to its first white space.
pub open spec fn take_word(s: Seq<char>) -> Seq<char>
    decreases s.len(),
{
    if s.len() == 0 || is_unicode_whitespace(s[0]) {
        Seq::empty()
    } else {
        seq![s[0]] + take_word(s.skip(1))
    }
}

/// The first item that `str::split_whitespace` yields of `s` (when `s`
/// holds a character that is not white space).
pub open spec fn first_word(s: Seq<char>) -> Seq<char> {
    take_word(skip_whitespace(s))
}

/// The words joined by `&`, as `[&str]::join("&")` joins them.
pub open spec fn join_with_ampersand(words: Seq<Seq<char>>) -> Seq<char>
    decreases words.len(),
{
    if words.len() == 0 {
        Seq::empty()
    } else if words.len() == 1 {
        words[0]
    } else {
        join_with_ampersand(words.drop_last()) + seq!['&'] + words.last()
    }
}

/// A text without white space is its own first word.
pub proof fn lemma_first_word_of_word(s: Seq<char>)
    requires
        forall|i: int| 0 <= i < s.len() ==> !is_unicode_whitespace(#[trigger] s[i]),
    ensures
        first_word(s) == s,
    decreases s.len(),
{
    if s.len() > 0 {
        assert(skip_whitespace(s) == s);
        assert(skip_whitespace(s.skip(1)) == s.skip(1)) by {
            if s.len() > 1 {
                assert(s.skip(1)[0] == s[1]);
            }
        }
        lemma_first_word_of_word(s.skip(1));
        assert(seq![s[0]] + s.skip(1) =~= s);
    } else {
        assert(skip_whitespace(s) == s);
    }
}

/// `tcgdex_api::Query::new`: a query whose fields are all empty, as its
/// source builds it.
pub assume_specification[ tcgdex_api::Query::new ]() -> (res: tcgdex_api::Query)
    ensures
        query_id(res) == Seq::<char>::empty(),
        query_filtering(res) == Seq::<char>::empty(),
        query_pagination(res) == Seq::<char>::empty(),
        query_sorting(res) == Seq::<char>::empty(),
;

/// `tcgdex_api::Query::with_filtering`: when the query has no id, its source
/// sets the filtering to the first whitespace-separated word of each item,
/// joined by `&`; a query with an id is returned unchanged. The id, the
/// pagination and the sorting are kept either way. The source indexes the
/// first word of each item, so it panics on an item with no word; the
/// precondition leaves those out.
pub assume_specification<'a>[ tcgdex_api::Query::with_filtering ](
    query: tcgdex_api::Query,
    filter: Vec<&'a str>,
) -> (res: tcgdex_api::Query)
    requires
        forall|i: int| 0 <= i < filter.len() ==> has_non_whitespace(#[trigger] filter[i]@),
    ensures
        query_id(res) == query_id(query),
        query_pagination(res) == query_pagination(query),
        query_sorting(res) == query_sorting(query),
        query_id(query).len() == 0 ==> query_filtering(res) == join_with_ampersand(
            filter@.map_values(|item: &'a str| first_word(item@)),
        ),
        query_id(query).len() != 0 ==> query_filtering(res) == query_filtering(query),
;

/// The filter of a card search by name: `name=` followed by the name.
pub fn card_name_filter(name: &str) -> (res: String)
    ensures
        res@ == "name="@ + name@,
{
    "name=".to_string().concat(name)
}

/// The catalogue query of a card search by name: no id, pagination or
/// sorting, and the filtering `name=` followed by the name up to its first
/// white space.
pub fn card_search_query(name: &str) -> (res: tcgdex_api::Query)
    ensures
        query_id(res) == Seq::<char>::empty(),
        query_pagination(res) == Seq::<char>::empty(),
        query_sorting(res) == Seq::<char>::empty(),
        query_filtering(res) == first_word("name="@ + name@),
{
    let filter = card_name_filter(name);
    proof {
        reveal_strlit("name=");
        assert(filter@[0] == 'n');
    }
    let items = vec![filter.as_str()];
    proof {
        let words = items@.map_values(|item: &str| first_word(item@));
        assert(words =~= seq![first_word(filter@)]);
        assert(join_with_ampersand(words) == words[0]);
    }
    tcgdex_api::Query::new().with_filtering(items)
}

/// The 500 answer for a failed catalogue call: the failure's prefix followed
/// by the error's text.
pub fn catalog_error(failure: CatalogFailure, detail: &str) -> (res: ApiError)
    ensures
        res.status == 500,
        res.message@ == failure_prefix(failure) + detail@,
        failure == CatalogFailure::Pokemon ==> res.message@ == "Error: "@ + detail@,
        failure == CatalogFailure::Join ==> res.message@ == "Join error: "@ + detail@,
        failure == CatalogFailure::Fetch ==> res.message@ == "Fetch error: "@ + detail@,
{
    let prefix = match failure {
        CatalogFailure::Pokemon => "Error: ".to_string(),
        CatalogFailure::Join => "Join error: ".to_string(),
        CatalogFailure::Fetch => "Fetch error: ".to_string(),
    };
    ApiError { status: 500, message: prefix.concat(detail) }
}

} // verus!
