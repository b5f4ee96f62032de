use poke_collection::api::ApiError;
use poke_collection::catalog::{card_name_filter, catalog_error, CatalogFailure};

#[test]
fn name_filter() {
    assert_eq!(card_name_filter("pikachu"), "name=pikachu");
    assert_eq!(card_name_filter(""), "name=");
}

#[test]
fn catalog_errors() {
    let e = catalog_error(CatalogFailure::Pokemon, "404 Not Found");
    assert_eq!(e.status, 500);
    assert_eq!(e.message, "Error: 404 Not Found");
    assert_eq!(catalog_error(CatalogFailure::Join, "panicked").message, "Join error: panicked");
    assert_eq!(catalog_error(CatalogFailure::Fetch, "timeout").message, "Fetch error: timeout");
}

#[test]
fn api_error_new() {
    let e = ApiError::new(418, "teapot");
    assert_eq!(e.status, 418);
    assert_eq!(e.message, "teapot");
}

#[test]
fn card_search_query_filters_by_name() {
    assert_eq!(poke_collection::catalog::card_search_query("pikachu").to_string(), "name=pikachu");
    assert_eq!(poke_collection::catalog::card_search_query("").to_string(), "name=");
}

#[test]
fn card_search_query_keeps_the_first_word() {
    assert_eq!(poke_collection::catalog::card_search_query("Mr Mime").to_string(), "name=Mr");
}
