use user_repo::client::{Error, UserRepo};

#[test]
fn user_url_joins_base_and_id() {
    let repo = UserRepo::new("http://localhost:9999".to_string());
    assert_eq!(repo.user_url("1"), "http://localhost:9999/users/1");
}

#[test]
fn users_url_joins_base_and_path() {
    let repo = UserRepo::new("http://localhost:9999".to_string());
    assert_eq!(repo.users_url(), "http://localhost:9999/users");
}

#[test]
fn default_targets_the_well_known_endpoint() {
    let repo = UserRepo::default();
    assert_eq!(repo.base_url(), "https://jsonplaceholder.typicode.com");
    assert_eq!(repo.user_url("7"), "https://jsonplaceholder.typicode.com/users/7");
}

#[test]
fn error_carries_its_message() {
    let e = Error::Transport("connection refused".to_string());
    assert_eq!(e.message(), "connection refused");
    let e = Error::Decode("bad body".to_string());
    assert_eq!(e.message(), "bad body");
}
