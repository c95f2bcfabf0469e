use tuido::errors::Error;
use tuido::user::{
    cache_dir_name, cache_file_name, read_cache, render_user_cache, user_from_response, User,
};

#[test]
fn absent_cache_asks_for_a_fetch() {
    let outcome = read_cache(None).unwrap();
    assert!(outcome.is_none());
}

#[test]
fn present_valid_cache_returns_the_parsed_content_verbatim() {
    let text = "{\n  \"inbox_project_id\": \"123\"\n}";
    let user = read_cache(Some(text)).unwrap().unwrap();
    assert_eq!(user.inbox_project_id, "123");
}

#[test]
fn cache_with_extra_fields_still_yields_the_inbox_id() {
    let text = "{\"id\":\"u1\",\"inbox_project_id\":\"9\",\"email\":\"a@b\"}";
    let user = read_cache(Some(text)).unwrap().unwrap();
    assert_eq!(user.inbox_project_id, "9");
}

#[test]
fn malformed_cache_is_a_cache_error() {
    assert_eq!(read_cache(Some("{ not json")).unwrap_err(), Error::Cache);
}

#[test]
fn cache_without_the_inbox_field_is_a_cache_error() {
    assert_eq!(read_cache(Some("{\"id\":\"u1\"}")).unwrap_err(), Error::Cache);
}

#[test]
fn cache_with_a_non_string_inbox_field_is_a_cache_error() {
    assert_eq!(
        read_cache(Some("{\"inbox_project_id\": 5}")).unwrap_err(),
        Error::Cache
    );
}

#[test]
fn rendered_cache_is_the_documented_pretty_text() {
    let user = User { inbox_project_id: "123".to_owned() };
    assert_eq!(render_user_cache(&user), "{\n  \"inbox_project_id\": \"123\"\n}");
}

#[test]
fn rendered_cache_parses_back_to_the_same_user() {
    let user = User { inbox_project_id: "proj-42".to_owned() };
    let text = render_user_cache(&user);
    let back = read_cache(Some(&text)).unwrap().unwrap();
    assert_eq!(back.inbox_project_id, "proj-42");
}

#[test]
fn rendered_cache_round_trips_awkward_identifiers() {
    let user = User { inbox_project_id: "a\"b\\c\nd".to_owned() };
    let text = render_user_cache(&user);
    let back = read_cache(Some(&text)).unwrap().unwrap();
    assert_eq!(back.inbox_project_id, "a\"b\\c\nd");
}

#[test]
fn response_with_a_user_yields_its_inbox_id() {
    let text = "{\"user\": {\"inbox_project_id\": \"123\"}}";
    let user = user_from_response(text).unwrap();
    assert_eq!(user.inbox_project_id, "123");
}

#[test]
fn response_without_a_user_is_a_response_error() {
    assert_eq!(user_from_response("{\"items\": []}").unwrap_err(), Error::Response);
}

#[test]
fn unparsable_response_is_a_response_error() {
    assert_eq!(user_from_response("not json").unwrap_err(), Error::Response);
}

#[test]
fn cache_path_pieces_are_as_documented() {
    assert_eq!(cache_dir_name(), "data");
    assert_eq!(cache_file_name(), "user.json");
}

#[test]
fn fresh_directory_then_cached_second_run_resolves_the_same_inbox() {
    // First invocation: no cache file, so the loader asks for a fetch ...
    assert!(read_cache(None).unwrap().is_none());
    // ... the remote returns a user, whose inbox id is extracted ...
    let fetched = user_from_response("{\"user\": {\"inbox_project_id\": \"123\"}}").unwrap();
    assert_eq!(fetched.inbox_project_id, "123");
    // ... and the persisted file carries that id.
    let stored = render_user_cache(&fetched);
    assert!(stored.contains("\"inbox_project_id\": \"123\""));
    // Second invocation: the file is present and valid, so no fetch is
    // asked for and the same id is resolved.
    let again = read_cache(Some(&stored)).unwrap().unwrap();
    assert_eq!(again.inbox_project_id, "123");
}
