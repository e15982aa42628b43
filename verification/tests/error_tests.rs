use alexandrie::db::models::Author;
use alexandrie::error::{AlexError, Error};
use alexandrie::version::Version;

fn author() -> Author {
    Author { id: 1, email: "a@b.c".to_owned(), name: "Ann".to_owned(), passwd: "00".to_owned() }
}

#[test]
fn crate_not_found_message() {
    let e = AlexError::CrateNotFound { name: "serde".to_owned() };
    assert_eq!(e.message(), "no crate named 'serde' found");
}

#[test]
fn crate_not_owned_message() {
    let e = AlexError::CrateNotOwned("serde".to_owned(), author());
    assert_eq!(e.message(), "you are not an owner of 'serde'");
}

#[test]
fn version_too_low_message() {
    let e = AlexError::VersionTooLow {
        krate: "serde".to_owned(),
        hosted: Version::parse("1.2.0").unwrap(),
        published: Version::parse("1.1.0").unwrap(),
    };
    assert_eq!(
        e.message(),
        "the published version is too low (hosted version is 1.2.0, 1.1.0 <= 1.2.0)"
    );
}

#[test]
fn invalid_token_message() {
    assert_eq!(AlexError::InvalidToken.message(), "invalid token");
}

#[test]
fn missing_query_params_message() {
    let e = AlexError::MissingQueryParams { missing_params: vec!["q".to_owned(), "page".to_owned()] };
    assert_eq!(e.message(), "missing query parameters: [\"q\", \"page\"]");
}

#[test]
fn error_messages_of_other_libraries() {
    assert_eq!(Error::IOError("disk full".to_owned()).message(), "disk full");
    assert_eq!(Error::JSONError("bad json".to_owned()).message(), "bad json");
    assert_eq!(Error::TOMLError("bad toml".to_owned()).message(), "bad toml");
    assert_eq!(Error::SQLError("no table".to_owned()).message(), "no table");
    assert_eq!(Error::SemverError("bad version".to_owned()).message(), "bad version");
    assert_eq!(Error::AlexError(AlexError::InvalidToken).message(), "invalid token");
}

#[test]
fn response_messages_hide_internal_errors() {
    assert_eq!(Error::SQLError("no table".to_owned()).response_message(), "internal server error");
    assert_eq!(Error::IOError("disk full".to_owned()).response_message(), "internal server error");
    let e = Error::AlexError(AlexError::CrateNotFound { name: "rand".to_owned() });
    assert_eq!(e.response_message(), "no crate named 'rand' found");
}
