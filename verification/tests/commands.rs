use autopr::config::config_path;
use autopr::config::resolve_config_path;
use autopr::greeting::greet;
use autopr::status::status_url;

#[test]
fn greet_formats_the_full_message() {
    assert_eq!(
        greet("World"),
        "Hello, World! You've been greeted from Rust!"
    );
}

#[test]
fn greet_contains_the_name() {
    assert!(greet("X").contains("X"));
}

#[test]
fn greet_on_empty_name() {
    assert_eq!(greet(""), "Hello, ! You've been greeted from Rust!");
}

#[test]
fn config_path_appends_the_file_name() {
    assert_eq!(config_path("/home/user"), "/home/user/.autopr.yaml");
}

#[test]
fn config_path_on_empty_home() {
    assert_eq!(config_path(""), "/.autopr.yaml");
}

#[test]
fn resolve_config_path_on_found_home() {
    let r = resolve_config_path(Ok(String::from("/root")));
    assert_eq!(r, Ok(String::from("/root/.autopr.yaml")));
}

#[test]
fn resolve_config_path_passes_the_lookup_error_through() {
    let r = resolve_config_path(Err(String::from("environment variable not found")));
    assert_eq!(r, Err(String::from("environment variable not found")));
}

#[test]
fn status_url_is_the_local_endpoint() {
    assert_eq!(status_url(), "http://localhost:8000/status");
}
