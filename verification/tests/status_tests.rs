use anilist_lookup::error::CatalogError;
use anilist_lookup::buckets::{aggregate_statuses, CategoryBuckets};
use anilist_lookup::status::{
    status_line_of, user_scores, user_status_from, StatusCategory, UserStatusEntry,
};

fn entry(user: &str, status: &str, progress: &str, score: &str, repeat: &str) -> UserStatusEntry {
    UserStatusEntry {
        user: user.to_string(),
        status: status.to_string(),
        progress: progress.to_string(),
        score: score.to_string(),
        repeat: repeat.to_string(),
    }
}

fn all_categories() -> Vec<StatusCategory> {
    vec![
        StatusCategory::Repeating,
        StatusCategory::Current,
        StatusCategory::Completed,
        StatusCategory::Planning,
        StatusCategory::Paused,
        StatusCategory::Dropped,
    ]
}

fn total_lines(buckets: &CategoryBuckets) -> usize {
    all_categories().iter().map(|c| buckets.bucket(*c).len()).sum()
}

#[test]
fn classify_matches_the_quoted_upper_case_names() {
    assert_eq!(StatusCategory::classify("\"REPEATING\""), Some(StatusCategory::Repeating));
    assert_eq!(StatusCategory::classify("\"CURRENT\""), Some(StatusCategory::Current));
    assert_eq!(StatusCategory::classify("\"COMPLETED\""), Some(StatusCategory::Completed));
    assert_eq!(StatusCategory::classify("\"PLANNING\""), Some(StatusCategory::Planning));
    assert_eq!(StatusCategory::classify("\"PAUSED\""), Some(StatusCategory::Paused));
    assert_eq!(StatusCategory::classify("\"DROPPED\""), Some(StatusCategory::Dropped));
}

#[test]
fn classify_is_an_exact_match() {
    assert_eq!(StatusCategory::classify("CURRENT"), None);
    assert_eq!(StatusCategory::classify("\"current\""), None);
    assert_eq!(StatusCategory::classify("\"CURRENT\" "), None);
    assert_eq!(StatusCategory::classify("\"WATCHING\""), None);
    assert_eq!(StatusCategory::classify("null"), None);
    assert_eq!(StatusCategory::classify(""), None);
}

#[test]
fn labels_are_the_headings() {
    let labels: Vec<&str> = all_categories().iter().map(|c| c.label()).collect();
    assert_eq!(labels, vec!["Repeating", "Current", "Completed", "Planning", "Paused", "Dropped"]);
}

#[test]
fn each_category_gets_one_line_in_its_own_bucket() {
    let cases = vec![
        ("\"REPEATING\"", StatusCategory::Repeating, "ann - 5 | 7/10"),
        ("\"CURRENT\"", StatusCategory::Current, "ann - 5 | 7/10"),
        ("\"COMPLETED\"", StatusCategory::Completed, "ann - 7/10"),
        ("\"PLANNING\"", StatusCategory::Planning, "ann - 7/10"),
        ("\"PAUSED\"", StatusCategory::Paused, "ann - 7/10"),
        ("\"DROPPED\"", StatusCategory::Dropped, "ann - 7/10"),
    ];
    for (raw, category, line) in cases {
        let buckets = aggregate_statuses(&vec![Some(entry("ann", raw, "5", "7", "0"))]);
        assert_eq!(buckets.bucket(category), &vec![line.to_string()]);
        assert_eq!(total_lines(&buckets), 1);
    }
}

#[test]
fn an_unrecognized_status_is_in_no_bucket() {
    let buckets = aggregate_statuses(&vec![Some(entry("ann", "\"WATCHING\"", "5", "7", "0"))]);
    assert_eq!(total_lines(&buckets), 0);
    assert_eq!(buckets, CategoryBuckets::new());
}

#[test]
fn an_absent_status_is_in_no_bucket_and_moves_nobody() {
    let with_absent = aggregate_statuses(&vec![
        Some(entry("ann", "\"CURRENT\"", "3", "6", "0")),
        None,
        Some(entry("cid", "\"CURRENT\"", "9", "8", "0")),
        None,
        Some(entry("dee", "\"PAUSED\"", "1", "4", "0")),
    ]);
    let without = aggregate_statuses(&vec![
        Some(entry("ann", "\"CURRENT\"", "3", "6", "0")),
        Some(entry("cid", "\"CURRENT\"", "9", "8", "0")),
        Some(entry("dee", "\"PAUSED\"", "1", "4", "0")),
    ]);
    assert_eq!(with_absent, without);
    assert_eq!(with_absent.current, vec!["ann - 3 | 6/10".to_string(), "cid - 9 | 8/10".to_string()]);
    assert_eq!(with_absent.paused, vec!["dee - 4/10".to_string()]);
    assert_eq!(total_lines(&with_absent), 3);
}

#[test]
fn no_users_give_empty_buckets() {
    assert_eq!(aggregate_statuses(&Vec::new()), CategoryBuckets::new());
    assert_eq!(total_lines(&aggregate_statuses(&vec![None, None])), 0);
}

#[test]
fn a_bucket_keeps_the_order_of_the_users() {
    let buckets = aggregate_statuses(&vec![
        Some(entry("A", "\"CURRENT\"", "1", "5", "0")),
        Some(entry("B", "\"CURRENT\"", "2", "6", "0")),
        Some(entry("C", "\"CURRENT\"", "3", "7", "0")),
    ]);
    assert_eq!(
        buckets.current,
        vec!["A - 1 | 5/10".to_string(), "B - 2 | 6/10".to_string(), "C - 3 | 7/10".to_string()]
    );
    assert_eq!(total_lines(&buckets), 3);
}

#[test]
fn users_of_several_categories_are_sorted_apart_in_order() {
    let buckets = aggregate_statuses(&vec![
        Some(entry("a", "\"DROPPED\"", "1", "2", "0")),
        Some(entry("b", "\"COMPLETED\"", "12", "9", "2")),
        Some(entry("c", "\"DROPPED\"", "4", "3", "0")),
        Some(entry("d", "\"REPEATING\"", "7", "10", "1")),
        Some(entry("e", "\"COMPLETED\"", "12", "8", "0")),
        Some(entry("f", "\"PLANNING\"", "0", "0", "0")),
    ]);
    assert_eq!(buckets.dropped, vec!["a - 2/10".to_string(), "c - 3/10".to_string()]);
    assert_eq!(
        buckets.completed,
        vec!["b - 2 repeat(s) | 9/10".to_string(), "e - 8/10".to_string()]
    );
    assert_eq!(buckets.repeating, vec!["d - 7 | 10/10".to_string()]);
    assert_eq!(buckets.planning, vec!["f - 0/10".to_string()]);
    assert!(buckets.current.is_empty());
    assert!(buckets.paused.is_empty());
}

#[test]
fn completed_shows_repeats_only_when_there_are_some() {
    let never = entry("bob", "\"COMPLETED\"", "24", "8", "0");
    let thrice = entry("bob", "\"COMPLETED\"", "24", "8", "3");
    assert_eq!(status_line_of(StatusCategory::Completed, &never), "bob - 8/10");
    assert_eq!(status_line_of(StatusCategory::Completed, &thrice), "bob - 3 repeat(s) | 8/10");
}

#[test]
fn repeats_are_shown_for_completed_alone() {
    let e = entry("bob", "", "11", "6.5", "3");
    assert_eq!(status_line_of(StatusCategory::Repeating, &e), "bob - 11 | 6.5/10");
    assert_eq!(status_line_of(StatusCategory::Current, &e), "bob - 11 | 6.5/10");
    assert_eq!(status_line_of(StatusCategory::Planning, &e), "bob - 6.5/10");
    assert_eq!(status_line_of(StatusCategory::Paused, &e), "bob - 6.5/10");
    assert_eq!(status_line_of(StatusCategory::Dropped, &e), "bob - 6.5/10");
}

#[test]
fn a_repeat_count_that_is_not_the_text_zero_counts_as_repeated() {
    let e = entry("bob", "\"COMPLETED\"", "24", "8", "null");
    assert_eq!(status_line_of(StatusCategory::Completed, &e), "bob - null repeat(s) | 8/10");
}

#[test]
fn push_adds_to_one_bucket() {
    let mut buckets = CategoryBuckets::new();
    buckets.push(StatusCategory::Paused, "x".to_string());
    buckets.push(StatusCategory::Paused, "y".to_string());
    buckets.push(StatusCategory::Repeating, "z".to_string());
    assert_eq!(buckets.bucket(StatusCategory::Paused), &vec!["x".to_string(), "y".to_string()]);
    assert_eq!(buckets.bucket(StatusCategory::Repeating), &vec!["z".to_string()]);
    assert_eq!(total_lines(&buckets), 3);
}

#[test]
fn user_scores_reads_the_four_fields_as_json_text() {
    let body = "{\"data\":{\"MediaList\":{\"status\":\"COMPLETED\",\"progress\":12,\"score\":8.5,\"repeat\":0,\"progressVolumes\":null}}}";
    assert_eq!(
        user_scores("alice", 200, body),
        Ok(Some(entry("alice", "\"COMPLETED\"", "12", "8.5", "0")))
    );
}

#[test]
fn user_scores_of_a_null_list_entry_is_absent() {
    assert_eq!(user_scores("bob", 200, "{\"data\":{\"MediaList\":null}}"), Ok(None));
    assert_eq!(
        user_scores("bob", 200, "{\"errors\":[],\"data\":{\"MediaList\":null,\"x\":1}}"),
        Ok(None)
    );
    assert_eq!(user_scores("bob", 200, "{\"data\":null}"), Ok(None));
}

#[test]
fn an_answer_that_holds_no_list_entry_at_all_is_of_the_wrong_shape() {
    assert_eq!(user_scores("bob", 200, "{}"), Err(CatalogError::SchemaShape));
    assert_eq!(user_scores("bob", 200, "{\"data\":{}}"), Err(CatalogError::SchemaShape));
    assert_eq!(user_scores("bob", 200, "{\"data\":7}"), Err(CatalogError::SchemaShape));
    assert_eq!(user_scores("bob", 200, "{\"Data\":{\"MediaList\":null}}"), Err(CatalogError::SchemaShape));
    assert_eq!(user_scores("bob", 200, "null"), Err(CatalogError::SchemaShape));
    assert_eq!(user_scores("bob", 200, "[1, 2]"), Err(CatalogError::SchemaShape));
}

#[test]
fn a_list_entry_that_is_no_object_is_of_the_wrong_shape() {
    for list in ["7", "\"COMPLETED\"", "true", "[]", "{}", "[{\"status\":\"PAUSED\"}]"] {
        let body = format!("{{\"data\":{{\"MediaList\":{list}}}}}");
        assert_eq!(user_scores("bob", 200, &body), Err(CatalogError::SchemaShape), "{list}");
    }
}

#[test]
fn a_list_entry_that_lacks_a_field_is_of_the_wrong_shape() {
    let bodies = [
        "{\"data\":{\"MediaList\":{\"status\":\"COMPLETED\",\"progress\":5,\"repeat\":0}}}",
        "{\"data\":{\"MediaList\":{\"status\":\"COMPLETED\",\"score\":8,\"repeat\":0}}}",
        "{\"data\":{\"MediaList\":{\"status\":\"COMPLETED\",\"progress\":5,\"score\":8}}}",
        "{\"data\":{\"MediaList\":{\"progress\":5,\"score\":8,\"repeat\":0}}}",
        "{\"data\":{\"MediaList\":{\"status\":\"PAUSED\"}}}",
    ];
    for body in bodies {
        assert_eq!(user_scores("bob", 200, body), Err(CatalogError::SchemaShape), "{body}");
    }
}

#[test]
fn a_list_entry_with_a_field_of_another_kind_is_of_the_wrong_shape() {
    let fields = [
        ("\"COMPLETED\"", "\"many\"", "8", "0"),
        ("\"COMPLETED\"", "5", "\"8\"", "0"),
        ("\"COMPLETED\"", "5", "8", "\"0\""),
        ("\"COMPLETED\"", "null", "8", "0"),
        ("\"COMPLETED\"", "5", "null", "0"),
        ("\"COMPLETED\"", "5", "8", "null"),
        ("\"COMPLETED\"", "5", "8", "[0]"),
        ("\"COMPLETED\"", "5", "{\"n\":8}", "0"),
        ("\"COMPLETED\"", "true", "8", "0"),
        ("null", "5", "8", "0"),
        ("3", "5", "8", "0"),
        ("[\"COMPLETED\"]", "5", "8", "0"),
        ("false", "5", "8", "0"),
    ];
    for (status, progress, score, repeat) in fields {
        let body = format!(
            "{{\"data\":{{\"MediaList\":{{\"status\":{status},\"progress\":{progress},\"score\":{score},\"repeat\":{repeat}}}}}}}"
        );
        assert_eq!(user_scores("bob", 200, &body), Err(CatalogError::SchemaShape), "{body}");
    }
}

#[test]
fn a_status_that_is_no_known_name_is_still_read() {
    let body = "{\"data\":{\"MediaList\":{\"status\":\"SOMETHING_NEW\",\"progress\":1,\"score\":2,\"repeat\":3}}}";
    assert_eq!(
        user_scores("bob", 200, body),
        Ok(Some(entry("bob", "\"SOMETHING_NEW\"", "1", "2", "3")))
    );
    let body = "{\"data\":{\"MediaList\":{\"status\":\"\",\"progress\":1,\"score\":2,\"repeat\":3}}}";
    assert_eq!(user_scores("bob", 200, body), Ok(Some(entry("bob", "\"\"", "1", "2", "3"))));
}

#[test]
fn whole_numbers_arrive_as_their_digits() {
    let body = "{\"data\":{\"MediaList\":{\"status\":\"CURRENT\",\"progress\":-5,\"score\":18446744073709551615,\"repeat\":1000}}}";
    assert_eq!(
        user_scores("bob", 200, body),
        Ok(Some(entry("bob", "\"CURRENT\"", "-5", "18446744073709551615", "1000")))
    );
    let body = "{\"data\":{\"MediaList\":{\"status\":\"CURRENT\",\"progress\":0,\"score\":-9223372036854775808,\"repeat\":10}}}";
    assert_eq!(
        user_scores("bob", 200, body),
        Ok(Some(entry("bob", "\"CURRENT\"", "0", "-9223372036854775808", "10")))
    );
}

#[test]
fn a_plain_status_arrives_between_quotes() {
    let body = "{\"data\":{\"MediaList\":{\"status\":\"ナルト x\u{7f}/'\",\"progress\":1,\"score\":2,\"repeat\":0}}}";
    assert_eq!(
        user_scores("bob", 200, body),
        Ok(Some(entry("bob", "\"ナルト x\u{7f}/'\"", "1", "2", "0")))
    );
}

#[test]
fn other_values_arrive_as_compact_json() {
    let body = "{\"data\":{\"MediaList\":{\"status\":\"a\\\"b\\\\c\\n\",\"progress\":1e2,\"score\":7.25,\"repeat\":-0.5}}}";
    assert_eq!(
        user_scores("bob", 200, body),
        Ok(Some(entry("bob", "\"a\\\"b\\\\c\\n\"", "100.0", "7.25", "-0.5")))
    );
}

#[test]
fn a_repeat_count_of_zero_in_the_answer_shows_no_repeats() {
    let zero = user_scores(
        "bob",
        200,
        "{\"data\":{\"MediaList\":{\"status\":\"COMPLETED\",\"progress\":24,\"score\":8,\"repeat\":0}}}",
    )
    .unwrap();
    let three = user_scores(
        "bob",
        200,
        "{\"data\":{\"MediaList\":{\"status\":\"COMPLETED\",\"progress\":24,\"score\":8,\"repeat\":3}}}",
    )
    .unwrap();
    let buckets = aggregate_statuses(&vec![zero, three]);
    assert_eq!(
        buckets.completed,
        vec!["bob - 8/10".to_string(), "bob - 3 repeat(s) | 8/10".to_string()]
    );
}

#[test]
fn user_scores_fails_on_text_that_is_not_json() {
    assert_eq!(user_scores("bob", 200, ""), Err(CatalogError::Transport));
    assert_eq!(user_scores("bob", 200, "<html>502</html>"), Err(CatalogError::Transport));
    assert_eq!(user_scores("bob", 200, "{\"data\":"), Err(CatalogError::Transport));
}

#[test]
fn user_scores_fails_on_a_status_that_is_no_success() {
    let body = "{\"data\":{\"MediaList\":{\"status\":\"PAUSED\",\"progress\":1,\"score\":2,\"repeat\":0}}}";
    for status in [0, 100, 199, 300, 301, 404, 429, 500, 503, u16::MAX] {
        assert_eq!(user_scores("bob", status, body), Err(CatalogError::Transport), "{status}");
        assert_eq!(
            user_scores("bob", status, "{\"data\":{\"MediaList\":null}}"),
            Err(CatalogError::Transport),
            "{status}"
        );
    }
    for status in [200, 201, 204, 299] {
        assert_eq!(
            user_scores("bob", status, body),
            Ok(Some(entry("bob", "\"PAUSED\"", "1", "2", "0"))),
            "{status}"
        );
    }
}

#[test]
fn user_status_from_reads_a_parsed_answer() {
    let mut list = serde_json::Map::new();
    list.insert("status".to_string(), serde_json::Value::from("CURRENT"));
    list.insert("progress".to_string(), serde_json::Value::from(3));
    list.insert("score".to_string(), serde_json::Value::from(10));
    list.insert("repeat".to_string(), serde_json::Value::from(1));
    let mut data = serde_json::Map::new();
    data.insert("MediaList".to_string(), serde_json::Value::Object(list));
    let mut doc = serde_json::Map::new();
    doc.insert("data".to_string(), serde_json::Value::Object(data));
    assert_eq!(
        user_status_from("cid", &serde_json::Value::Object(doc)),
        Ok(Some(entry("cid", "\"CURRENT\"", "3", "10", "1")))
    );
    let mut data = serde_json::Map::new();
    data.insert("MediaList".to_string(), serde_json::Value::Null);
    let mut doc = serde_json::Map::new();
    doc.insert("data".to_string(), serde_json::Value::Object(data));
    assert_eq!(user_status_from("cid", &serde_json::Value::Object(doc)), Ok(None));
    assert_eq!(
        user_status_from("cid", &serde_json::Value::Null),
        Err(CatalogError::SchemaShape)
    );
    assert_eq!(
        user_status_from("cid", &serde_json::Value::Object(serde_json::Map::new())),
        Err(CatalogError::SchemaShape)
    );
}

#[test]
fn a_status_read_from_an_answer_lands_in_its_bucket() {
    let bodies = vec![
        ("ann", "{\"data\":{\"MediaList\":{\"status\":\"REPEATING\",\"progress\":4,\"score\":9,\"repeat\":2}}}"),
        ("bob", "{\"data\":{\"MediaList\":{\"status\":\"SOMETHING_NEW\",\"progress\":4,\"score\":9,\"repeat\":2}}}"),
        ("cid", "{\"data\":{\"MediaList\":null}}"),
    ];
    let statuses: Vec<Option<UserStatusEntry>> =
        bodies.iter().map(|(user, body)| user_scores(user, 200, body).unwrap()).collect();
    let buckets = aggregate_statuses(&statuses);
    assert_eq!(buckets.repeating, vec!["ann - 4 | 9/10".to_string()]);
    assert_eq!(total_lines(&buckets), 1);
}
