use tuido::errors::Error;
use tuido::sync::{
    add_item_request, bearer_header, default_sync_url, fresh_id_pair, get_user_request,
    new_add_item_request, render_request,
};
use tuido::text::escape_json;
use tuido::ui::{add_outcome_line, confirmation_line, farewell_line, fetched_line, fetching_line, storing_line};

#[test]
fn get_user_body_is_the_exact_wire_text() {
    let body = render_request(&get_user_request());
    assert_eq!(
        body,
        "{\"sync_token\":\"*\",\"resource_types\":[\"user\"],\"commands\":[]}"
    );
}

#[test]
fn add_item_body_carries_the_args_verbatim() {
    let request = add_item_request(
        "123".to_owned(),
        "Buy milk".to_owned(),
        "t-1".to_owned(),
        "u-1".to_owned(),
    );
    let body = render_request(&request);
    assert_eq!(
        body,
        "{\"sync_token\":\"*\",\"resource_types\":[],\"commands\":[{\"type\":\"item_add\",\"args\":{\"project_id\":\"123\",\"content\":\"Buy milk\"},\"temp_id\":\"t-1\",\"uuid\":\"u-1\"}]}"
    );
}

#[test]
fn add_item_envelope_holds_exactly_one_command_with_distinct_ids() {
    let request = new_add_item_request("123".to_owned(), "Buy milk".to_owned());
    assert_eq!(request.sync_token, "*");
    assert!(request.resource_types.is_empty());
    assert_eq!(request.commands.len(), 1);
    let command = &request.commands[0];
    assert_eq!(command.request_type, "item_add");
    assert_eq!(command.args.project_id, "123");
    assert_eq!(command.args.content, "Buy milk");
    assert_ne!(command.temp_id, command.uuid);
}

#[test]
fn generated_ids_are_distinct_across_repeated_calls() {
    let first = new_add_item_request("1".to_owned(), "a".to_owned());
    let second = new_add_item_request("1".to_owned(), "a".to_owned());
    let ids = [
        &first.commands[0].temp_id,
        &first.commands[0].uuid,
        &second.commands[0].temp_id,
        &second.commands[0].uuid,
    ];
    for i in 0..ids.len() {
        for j in 0..ids.len() {
            if i != j {
                assert_ne!(ids[i], ids[j]);
            }
        }
    }
}

#[test]
fn fresh_ids_have_the_hyphenated_length_and_differ() {
    let (a, b) = fresh_id_pair();
    assert_eq!(a.len(), 36);
    assert_ne!(a, b);
}

#[test]
fn item_text_is_escaped_on_the_wire() {
    let request = add_item_request(
        "123".to_owned(),
        "say \"hi\" \\ now\nplease".to_owned(),
        "t".to_owned(),
        "u".to_owned(),
    );
    let body = render_request(&request);
    assert!(body.contains("\"content\":\"say \\\"hi\\\" \\\\ now\\u000aplease\""));
}

#[test]
fn escaping_is_exact_on_each_kind_of_character() {
    assert_eq!(escape_json("plain"), "plain");
    assert_eq!(escape_json("a\"b"), "a\\\"b");
    assert_eq!(escape_json("a\\b"), "a\\\\b");
    assert_eq!(escape_json("a\nb"), "a\\u000ab");
    assert_eq!(escape_json("a\tb"), "a\\u0009b");
    assert_eq!(escape_json(""), "");
    assert_eq!(escape_json("caf\u{e9} \u{2713}"), "caf\u{e9} \u{2713}");
}

#[test]
fn bearer_header_prefixes_the_key() {
    assert_eq!(bearer_header("abc123"), "Bearer abc123");
}

#[test]
fn default_endpoint_is_the_documented_one() {
    assert_eq!(default_sync_url(), "https://api.todoist.com/sync/v9/sync");
}

#[test]
fn successful_add_prints_the_confirmation() {
    assert_eq!(
        confirmation_line("Buy milk"),
        "Todo 'Buy milk' added to inbox."
    );
    let line = add_outcome_line(true, "Buy milk").unwrap();
    assert_eq!(line, "Todo 'Buy milk' added to inbox.");
}

#[test]
fn failed_add_prints_nothing_and_the_farewell_still_comes() {
    assert!(add_outcome_line(false, "Buy milk").is_none());
    assert_eq!(farewell_line(), "Bye!");
}

#[test]
fn status_lines_are_the_documented_text() {
    assert_eq!(fetching_line(), "Fetching user data... ");
    assert_eq!(fetched_line(), "done.");
    assert_eq!(
        storing_line("/tmp/x/data/user.json"),
        "Storing user data in '/tmp/x/data/user.json'."
    );
}

#[test]
fn error_messages_name_each_failure() {
    assert_eq!(Error::Config.message(), "could not read or parse the credentials file");
    assert_eq!(Error::Cache.message(), "the cached user profile is malformed");
    assert_eq!(Error::Network.message(), "could not reach the sync endpoint");
    assert_eq!(Error::Response.message(), "the sync response lacks the requested user");
}
