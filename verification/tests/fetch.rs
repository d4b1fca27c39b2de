use kthprofile::fetch::{profile_url, status_is_success, LookupError};

#[test]
fn url_is_the_prefix_and_the_identifier() {
    assert_eq!(profile_url("u1abcde"), "https://api.kth.se/api/profile/1.1/u1abcde");
}

#[test]
fn identifier_goes_into_the_url_unchanged() {
    assert_eq!(profile_url("a b/ö?"), "https://api.kth.se/api/profile/1.1/a b/ö?");
    assert_eq!(profile_url(""), "https://api.kth.se/api/profile/1.1/");
}

#[test]
fn only_the_two_hundreds_are_a_success() {
    assert!(status_is_success(200));
    assert!(status_is_success(204));
    assert!(status_is_success(299));
    assert!(!status_is_success(199));
    assert!(!status_is_success(300));
    assert!(!status_is_success(304));
    assert!(!status_is_success(404));
    assert!(!status_is_success(500));
    assert!(!status_is_success(0));
    assert!(!status_is_success(u16::MAX));
}

#[test]
fn both_kinds_of_failure_show_their_description() {
    let transport = LookupError::Transport(String::from("connection refused"));
    let decode = LookupError::Decode(String::from("missing field `email`"));
    assert_eq!(transport.description(), "connection refused");
    assert_eq!(decode.description(), "missing field `email`");
}
