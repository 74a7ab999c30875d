use anilist_lookup::error::CatalogError;
use anilist_lookup::lookup::search_anilist;

#[test]
fn the_first_row_is_the_name() {
    assert_eq!(search_anilist(&vec!["alice".to_string()]), Ok("alice".to_string()));
    assert_eq!(
        search_anilist(&vec!["alice".to_string(), "other".to_string()]),
        Ok("alice".to_string())
    );
}

#[test]
fn no_row_is_a_failed_lookup() {
    assert_eq!(search_anilist(&Vec::new()), Err(CatalogError::LookupNotFound));
}
