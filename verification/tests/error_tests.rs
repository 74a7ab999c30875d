use anilist_lookup::error::status_is_success;

#[test]
fn a_status_from_200_to_299_is_a_success() {
    assert!(status_is_success(200));
    assert!(status_is_success(250));
    assert!(status_is_success(299));
}

#[test]
fn any_other_status_is_no_success() {
    assert!(!status_is_success(0));
    assert!(!status_is_success(199));
    assert!(!status_is_success(300));
    assert!(!status_is_success(404));
    assert!(!status_is_success(u16::MAX));
}
