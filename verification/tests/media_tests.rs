use anilist_lookup::error::CatalogError;
use anilist_lookup::media::{media_record, media_record_from, MediaRecord};

fn naruto_body() -> String {
    "{\"data\":{\"Media\":{\"id\":20,\"title\":{\"romaji\":\"Naruto\"},\"status\":\"FINISHED\",\
     \"episodes\":220,\"genres\":[\"Action\",\"Adventure\"],\"meanScore\":79,\"averageScore\":78,\
     \"popularity\":12345,\"favourites\":6789,\"siteUrl\":\"https://anilist.co/anime/20\",\
     \"coverImage\":{\"extraLarge\":\"https://img.example/cover.jpg\"},\"bannerImage\":null}}}"
        .to_string()
}

fn naruto() -> MediaRecord {
    MediaRecord {
        id: 20,
        title: "\"Naruto\"".to_string(),
        status: "\"FINISHED\"".to_string(),
        episodes: "220".to_string(),
        mean_score: "79".to_string(),
        average_score: "78".to_string(),
        popularity: 12345,
        favourites: 6789,
        genres: vec!["Action".to_string(), "Adventure".to_string()],
        site_url: "\"https://anilist.co/anime/20\"".to_string(),
        cover_image: "\"https://img.example/cover.jpg\"".to_string(),
        banner_image: "null".to_string(),
    }
}

fn body_with(field: &str, value: &str) -> String {
    let doc: serde_json::Value = serde_json::from_str(&naruto_body()).unwrap();
    let mut doc = doc;
    doc["data"]["Media"][field] = serde_json::from_str(value).unwrap();
    doc.to_string()
}

#[test]
fn media_record_reads_every_field() {
    assert_eq!(media_record(200, &naruto_body()), Ok(naruto()));
}

#[test]
fn media_record_from_reads_a_parsed_answer() {
    let doc: serde_json::Value = serde_json::from_str(&naruto_body()).unwrap();
    assert_eq!(media_record_from(&doc), Ok(naruto()));
}

#[test]
fn media_record_fails_on_text_that_is_not_json() {
    assert_eq!(media_record(200, ""), Err(CatalogError::Transport));
    assert_eq!(media_record(200, "Too Many Requests"), Err(CatalogError::Transport));
}

#[test]
fn media_record_fails_on_a_status_that_is_no_success() {
    for status in [0, 199, 300, 404, 500, u16::MAX] {
        assert_eq!(media_record(status, &naruto_body()), Err(CatalogError::Transport), "{status}");
    }
    for status in [200, 201, 299] {
        assert_eq!(media_record(status, &naruto_body()), Ok(naruto()), "{status}");
    }
}

#[test]
fn genres_have_to_be_an_array() {
    assert_eq!(media_record(200, &body_with("genres", "\"Action\"")), Err(CatalogError::SchemaShape));
    assert_eq!(media_record(200, &body_with("genres", "null")), Err(CatalogError::SchemaShape));
    assert_eq!(media_record(200, &body_with("genres", "{}")), Err(CatalogError::SchemaShape));
}

#[test]
fn each_genre_has_to_be_a_string() {
    assert_eq!(
        media_record(200, &body_with("genres", "[\"Action\", 7]")),
        Err(CatalogError::SchemaShape)
    );
    assert_eq!(
        media_record(200, &body_with("genres", "[null]")),
        Err(CatalogError::SchemaShape)
    );
}

#[test]
fn an_empty_genre_list_is_in_order() {
    let record = media_record(200, &body_with("genres", "[]")).unwrap();
    assert!(record.genres.is_empty());
}

#[test]
fn the_id_and_the_counts_have_to_be_whole_numbers() {
    for field in ["id", "popularity", "favourites"] {
        for value in ["null", "12.5", "\"12\"", "9223372036854775808", "[1]"] {
            assert_eq!(
                media_record(200, &body_with(field, value)),
                Err(CatalogError::SchemaShape),
                "{field} = {value}"
            );
        }
    }
}

#[test]
fn a_count_may_be_negative_or_as_large_as_an_i64() {
    let record = media_record(200, &body_with("popularity", "9223372036854775807")).unwrap();
    assert_eq!(record.popularity, i64::MAX);
    let record = media_record(200, &body_with("favourites", "-3")).unwrap();
    assert_eq!(record.favourites, -3);
}

#[test]
fn an_answer_without_a_record_is_of_the_wrong_shape() {
    assert_eq!(media_record(200, "{\"data\":{\"Media\":null}}"), Err(CatalogError::SchemaShape));
    assert_eq!(media_record(200, "{}"), Err(CatalogError::SchemaShape));
    assert_eq!(media_record(200, "null"), Err(CatalogError::SchemaShape));
}

fn body_without(field: &str) -> String {
    let mut doc: serde_json::Value = serde_json::from_str(&naruto_body()).unwrap();
    let removed = doc["data"]["Media"].as_object_mut().unwrap().remove(field);
    assert!(removed.is_some());
    doc.to_string()
}

#[test]
fn the_text_fields_hold_the_json_that_stands_there() {
    let record = media_record(200, &body_with("meanScore", "81.5")).unwrap();
    assert_eq!(record.mean_score, "81.5");
    let record = media_record(200, &body_with("episodes", "-3")).unwrap();
    assert_eq!(record.episodes, "-3");
    let record = media_record(200, &body_with("title", "{\"romaji\":\"Say \\\"I love you\\\"\"}")).unwrap();
    assert_eq!(record.title, "\"Say \\\"I love you\\\"\"");
    let record = media_record(200, &body_with("title", "{\"romaji\":\"ナルト\",\"english\":\"Naruto\"}")).unwrap();
    assert_eq!(record.title, "\"ナルト\"");
}

#[test]
fn a_field_that_may_be_null_reads_null() {
    for field in ["status", "episodes", "meanScore", "averageScore", "siteUrl", "bannerImage"] {
        assert!(media_record(200, &body_with(field, "null")).is_ok(), "{field}");
    }
    let record = media_record(200, &body_with("episodes", "null")).unwrap();
    assert_eq!(record.episodes, "null");
    let record = media_record(200, &body_with("status", "null")).unwrap();
    assert_eq!(record.status, "null");
    let record = media_record(200, &body_with("title", "{\"romaji\":null}")).unwrap();
    assert_eq!(record.title, "null");
    let record = media_record(200, &body_with("title", "null")).unwrap();
    assert_eq!(record.title, "null");
    let record = media_record(200, &body_with("coverImage", "null")).unwrap();
    assert_eq!(record.cover_image, "null");
    let record = media_record(200, &body_with("coverImage", "{\"extraLarge\":null}")).unwrap();
    assert_eq!(record.cover_image, "null");
}

#[test]
fn a_record_that_lacks_a_field_is_of_the_wrong_shape() {
    let fields = [
        "id", "title", "status", "episodes", "genres", "meanScore", "averageScore", "popularity",
        "favourites", "siteUrl", "coverImage", "bannerImage",
    ];
    for field in fields {
        assert_eq!(
            media_record(200, &body_without(field)),
            Err(CatalogError::SchemaShape),
            "{field}"
        );
    }
    assert_eq!(media_record(200, &body_with("title", "{}")), Err(CatalogError::SchemaShape));
    assert_eq!(
        media_record(200, &body_with("title", "{\"english\":\"Naruto\"}")),
        Err(CatalogError::SchemaShape)
    );
    assert_eq!(media_record(200, &body_with("coverImage", "{}")), Err(CatalogError::SchemaShape));
}

#[test]
fn a_field_of_another_kind_is_of_the_wrong_shape() {
    let cases = [
        ("episodes", "\"many\""),
        ("episodes", "[12]"),
        ("episodes", "true"),
        ("meanScore", "\"79\""),
        ("averageScore", "{}"),
        ("status", "5"),
        ("status", "[\"FINISHED\"]"),
        ("status", "false"),
        ("siteUrl", "5"),
        ("bannerImage", "[]"),
        ("bannerImage", "0"),
        ("title", "\"Naruto\""),
        ("title", "[]"),
        ("title", "{\"romaji\":7}"),
        ("title", "{\"romaji\":{\"en\":\"Naruto\"}}"),
        ("coverImage", "\"https://img.example/cover.jpg\""),
        ("coverImage", "{\"extraLarge\":1}"),
    ];
    for (field, value) in cases {
        assert_eq!(
            media_record(200, &body_with(field, value)),
            Err(CatalogError::SchemaShape),
            "{field} = {value}"
        );
    }
}

#[test]
fn a_record_that_is_no_object_is_of_the_wrong_shape() {
    for media in ["7", "\"Naruto\"", "[]", "{}", "true"] {
        let body = format!("{{\"data\":{{\"Media\":{media}}}}}");
        assert_eq!(media_record(200, &body), Err(CatalogError::SchemaShape), "{media}");
    }
    assert_eq!(media_record(200, "{\"data\":null}"), Err(CatalogError::SchemaShape));
    assert_eq!(media_record(200, "{\"data\":{}}"), Err(CatalogError::SchemaShape));
    assert_eq!(media_record(200, "[]"), Err(CatalogError::SchemaShape));
}
