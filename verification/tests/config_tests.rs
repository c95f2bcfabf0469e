use tuido::config::{app_dir_name, auth_file_name, load_config, parse_config};
use tuido::errors::Error;

#[test]
fn valid_credentials_yield_exactly_the_embedded_key() {
    let text = "api_key = \"abc123\"\n";
    let config = parse_config(text).unwrap();
    assert_eq!(config.api_key, "abc123");
}

#[test]
fn valid_credentials_with_extra_fields_still_yield_the_key() {
    let text = "other = 5\napi_key = \"k-9\"\n";
    let config = parse_config(text).unwrap();
    assert_eq!(config.api_key, "k-9");
}

#[test]
fn missing_credentials_file_is_a_config_error() {
    assert_eq!(load_config(None).unwrap_err(), Error::Config);
}

#[test]
fn malformed_credentials_are_a_config_error() {
    assert_eq!(parse_config("this is not toml [").unwrap_err(), Error::Config);
}

#[test]
fn credentials_without_the_key_field_are_a_config_error() {
    assert_eq!(parse_config("other = \"x\"\n").unwrap_err(), Error::Config);
}

#[test]
fn credentials_with_a_non_string_key_are_a_config_error() {
    assert_eq!(parse_config("api_key = 7\n").unwrap_err(), Error::Config);
}

#[test]
fn present_credentials_load_through_the_loader() {
    let config = load_config(Some("api_key = \"zz\"")).unwrap();
    assert_eq!(config.api_key, "zz");
}

#[test]
fn fixed_names_are_as_documented() {
    assert_eq!(auth_file_name(), "client_auth.toml");
    assert_eq!(app_dir_name(), "tuido");
}
