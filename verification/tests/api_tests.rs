use std::collections::HashMap;

use alexandrie::api::account::{
    change_password, check_password, check_password_change_form, check_registration_form,
    hash_password, registry_token, salt_from, session_days, token_of_author, PasswordChange,
    PasswordCheck, HASH_LEN, PASSWORD_ROUNDS,
};
use alexandrie::api::owners::{
    added_authors_message, authors_list, is_author, leaves_no_author, removed_authors_message,
};
use alexandrie::api::publish::{
    check_owner, check_published_version, commit_message, crate_checksum, crate_description,
    dependency_from_api, publish_operation, read_publish_archive, read_publish_body,
    read_publish_metadata, readme_path, unyank_commit_message,
    APICrateDependency, PublishOperation,
};
use alexandrie::api::search::{
    api_search_window, search_pattern, search_window, suggestion_limit, SearchWindow,
};
use alexandrie::db::models::{Author, AuthorToken};
use alexandrie::error::{AlexError, Error};
use alexandrie::krate::DependencyKind;
use alexandrie::version::{Version, VersionReq};

const SALT_HEX: &str = "0102030405";
const PASSWORD_HEX: &str = "deadbeef";
const PASSWORD_HASH: &str = "739d95440133c8e42fa433c60b57049aa7acbda2b650cb2d1ba0db29cb59aca9c390ad5d1c83c853cca51db0d3c6aeaf80bd12a17d0a72e91b148ffac4f6d768";
const NEW_PASSWORD_HEX: &str = "cafe";
const NEW_PASSWORD_HASH: &str = "ec5d8c5703505ededf7c445c1b0fe15c6978bd2953fce3a61d63aa167ca189bd63dcac122956aee4535c8f7a742ce499c8e75cefb6dce173b46a34851400fd4d";

fn hex(bytes: &[u8]) -> String {
    bytes.iter().map(|b| format!("{:02x}", b)).collect()
}

fn author(id: u64) -> Author {
    Author { id, email: "a@b.c".to_owned(), name: "Ann".to_owned(), passwd: "00".to_owned() }
}

fn body(meta: &[u8], krate: &[u8]) -> Vec<u8> {
    let mut b = Vec::new();
    b.extend_from_slice(&(meta.len() as u32).to_le_bytes());
    b.extend_from_slice(meta);
    b.extend_from_slice(&(krate.len() as u32).to_le_bytes());
    b.extend_from_slice(krate);
    b
}

fn is_truncated(e: &Error) -> bool {
    matches!(e, Error::IOError(m) if m == "failed to fill whole buffer")
}

fn api_dependency(name: &str, explicit_name: Option<&str>) -> APICrateDependency {
    APICrateDependency {
        name: name.to_owned(),
        version_req: VersionReq::parse("^1.0").unwrap(),
        features: vec!["derive".to_owned()],
        optional: true,
        default_features: false,
        target: Some("cfg(unix)".to_owned()),
        kind: Some(DependencyKind::Build),
        registry: None,
        explicit_name: explicit_name.map(|s| s.to_owned()),
    }
}

#[test]
fn publish_body_is_split_into_metadata_and_archive() {
    let b = body(b"{\"name\":\"foo\"}", b"\x1f\x8b archive");
    let (meta, krate) = read_publish_body(&b).unwrap();
    assert_eq!(meta, b"{\"name\":\"foo\"}".to_vec());
    assert_eq!(krate, b"\x1f\x8b archive".to_vec());
}

#[test]
fn publish_body_may_hold_empty_parts_and_trailing_bytes() {
    let mut b = body(b"", b"");
    let (meta, krate) = read_publish_body(&b).unwrap();
    assert!(meta.is_empty() && krate.is_empty());
    b.extend_from_slice(b"extra");
    let (meta, krate) = read_publish_body(&b).unwrap();
    assert!(meta.is_empty() && krate.is_empty());
}

#[test]
fn publish_body_that_ends_early_is_refused() {
    assert!(is_truncated(&read_publish_body(&[1, 0]).unwrap_err()));
    assert!(is_truncated(&read_publish_body(&[5, 0, 0, 0, b'a', b'b']).unwrap_err()));
    let full = body(b"meta", b"archive");
    assert!(is_truncated(&read_publish_body(&full[..full.len() - 1]).unwrap_err()));
    assert!(is_truncated(&read_publish_body(&full[..9]).unwrap_err()));
}

#[test]
fn publish_metadata_is_read_before_the_archive() {
    // A body whose metadata is complete but whose archive length is missing.
    let mut b = Vec::new();
    b.extend_from_slice(&3u32.to_le_bytes());
    b.extend_from_slice(b"{x}");
    assert_eq!(read_publish_metadata(&b).unwrap(), b"{x}".to_vec());
    assert!(is_truncated(&read_publish_archive(&b).unwrap_err()));
    assert!(is_truncated(&read_publish_metadata(&b[..5]).unwrap_err()));
    let full = body(b"meta", b"archive");
    assert_eq!(read_publish_metadata(&full).unwrap(), b"meta".to_vec());
    assert_eq!(read_publish_archive(&full).unwrap(), b"archive".to_vec());
}

#[test]
fn crate_checksum_is_the_hex_of_sha256() {
    assert_eq!(crate_checksum(b""), "e3b0c44298fc1c149afbf4c8996fb92427ae41e4649b934ca495991b7852b855");
    assert_eq!(crate_checksum(b"hello"), "2cf24dba5fb0a30e26e83b2ac5b9e29e1b161e5c1fa7425e73043362938b9824");
}

#[test]
fn dependency_keeps_its_name_when_not_renamed() {
    let dep = dependency_from_api(api_dependency("serde", None));
    assert_eq!(dep.name, "serde");
    assert_eq!(dep.package, None);
    assert_eq!(dep.req.as_str(), "^1.0");
    assert_eq!(dep.features, vec!["derive".to_owned()]);
    assert!(dep.optional && !dep.default_features);
    assert_eq!(dep.target, Some("cfg(unix)".to_owned()));
    assert_eq!(dep.kind, Some(DependencyKind::Build));
}

#[test]
fn renamed_dependency_records_its_package() {
    let dep = dependency_from_api(api_dependency("serde", Some("serde1")));
    assert_eq!(dep.name, "serde1");
    assert_eq!(dep.package, Some("serde".to_owned()));
}

#[test]
fn crate_description_for_the_index() {
    let mut features = HashMap::new();
    features.insert("default".to_owned(), vec!["std".to_owned()]);
    let krate = crate_description(
        "foo".to_owned(),
        Version::parse("0.3.1").unwrap(),
        vec![api_dependency("serde", Some("s")), api_dependency("rand", None)],
        features,
        Some("z".to_owned()),
        "abcd".to_owned(),
    );
    assert_eq!(krate.name, "foo");
    assert_eq!(krate.vers.to_text(), "0.3.1");
    assert_eq!(krate.deps.len(), 2);
    assert_eq!(krate.deps[0].name, "s");
    assert_eq!(krate.deps[0].package, Some("serde".to_owned()));
    assert_eq!(krate.deps[1].name, "rand");
    assert_eq!(krate.cksum, "abcd");
    assert_eq!(krate.features.get("default"), Some(&vec!["std".to_owned()]));
    assert_eq!(krate.yanked, Some(false));
    assert_eq!(krate.links, Some("z".to_owned()));
}

#[test]
fn publish_operations() {
    assert_eq!(publish_operation(1), PublishOperation::Adding);
    assert_eq!(publish_operation(0), PublishOperation::Updating);
}

#[test]
fn publishing_a_crate_of_someone_else_is_refused() {
    assert!(check_owner(true, "foo".to_owned(), author(3)).is_ok());
    match check_owner(false, "foo".to_owned(), author(3)) {
        Err(Error::AlexError(AlexError::CrateNotOwned(name, a))) => {
            assert_eq!(name, "foo");
            assert_eq!(a.id, 3);
        },
        other => panic!("unexpected outcome: {:?}", other),
    }
}

#[test]
fn published_version_must_be_higher() {
    let ok = check_published_version("foo".to_owned(), Version::parse("1.0.0").unwrap(), Version::parse("1.0.1").unwrap());
    assert_eq!(ok.unwrap().to_text(), "1.0.1");
    let err = check_published_version("foo".to_owned(), Version::parse("1.0.0").unwrap(), Version::parse("1.0.0").unwrap()).unwrap_err();
    assert_eq!(
        err.message(),
        "the published version is too low (hosted version is 1.0.0, 1.0.0 <= 1.0.0)"
    );
    let err = check_published_version("foo".to_owned(), Version::parse("1.0.0").unwrap(), Version::parse("1.0.0-rc.1").unwrap());
    assert!(matches!(err, Err(Error::AlexError(AlexError::VersionTooLow { .. }))));
}

#[test]
fn commit_messages() {
    let v = Version::parse("1.0.0").unwrap();
    assert_eq!(commit_message(PublishOperation::Adding, "foo", &v), "Adding crate `foo#1.0.0`");
    assert_eq!(commit_message(PublishOperation::Updating, "foo", &v), "Updating crate `foo#1.0.0`");
    assert_eq!(unyank_commit_message("foo", &v), "Unyanking crate `foo#1.0.0`");
}

#[test]
fn readme_inside_the_archive() {
    assert_eq!(readme_path("foo", &Version::parse("0.1.0-beta").unwrap()), "foo-0.1.0-beta/README.md");
}

#[test]
fn search_pattern_escapes_wildcards() {
    assert_eq!(search_pattern("serde"), "%serde%");
    assert_eq!(search_pattern("50%"), "%50\\%%");
    assert_eq!(search_pattern("a\\b"), "%a\\\\b%");
    assert_eq!(search_pattern(""), "%%");
}

#[test]
fn search_windows_count_pages_from_one() {
    assert_eq!(search_window(Some(10), Some(3)), SearchWindow { limit: Some(10), offset: Some(20) });
    assert_eq!(search_window(Some(10), Some(1)), SearchWindow { limit: Some(10), offset: Some(0) });
    assert_eq!(search_window(Some(10), None), SearchWindow { limit: Some(10), offset: None });
    assert_eq!(search_window(None, Some(2)), SearchWindow { limit: None, offset: None });
}

#[test]
fn api_search_windows_count_pages_from_zero() {
    assert_eq!(api_search_window(Some(10), Some(3)), SearchWindow { limit: Some(10), offset: Some(30) });
    assert_eq!(api_search_window(Some(5), None), SearchWindow { limit: Some(5), offset: None });
    assert_eq!(api_search_window(None, None), SearchWindow { limit: None, offset: None });
}

#[test]
fn suggestion_limits() {
    assert_eq!(suggestion_limit(None), 10);
    assert_eq!(suggestion_limit(Some(3)), 3);
}

#[test]
fn authors_as_a_phrase() {
    let names = |v: &[&str]| v.iter().map(|s| s.to_string()).collect::<Vec<String>>();
    assert_eq!(authors_list(&names(&[])), "");
    assert_eq!(authors_list(&names(&["a"])), "a");
    assert_eq!(authors_list(&names(&["a", "b"])), "a and b");
    assert_eq!(authors_list(&names(&["a", "b", "c", "d"])), "a, b, c and d");
}

#[test]
fn owners_messages() {
    let names = vec!["ann".to_owned(), "bob".to_owned()];
    assert_eq!(added_authors_message(&names, "foo"), "ann and bob has been added as authors of foo");
    assert_eq!(removed_authors_message(&names, "foo"), "ann and bob has been removed from authors of foo");
}

#[test]
fn authors_of_a_crate() {
    assert!(is_author(&vec![1, 5, 9], 5));
    assert!(!is_author(&vec![1, 5, 9], 4));
    assert!(!is_author(&vec![], 1));
}

#[test]
fn removing_the_only_author_is_refused() {
    assert!(leaves_no_author(1, 1));
    assert!(!leaves_no_author(2, 1));
    assert!(!leaves_no_author(3, 2));
}

#[test]
fn removing_every_author_is_refused() {
    assert!(leaves_no_author(2, 2));
    assert!(leaves_no_author(3, 3));
    assert!(!leaves_no_author(2, 0));
}

#[test]
fn salt_is_the_sha512_of_random_bytes() {
    let salt = salt_from(b"");
    assert_eq!(salt.len(), 64);
    assert_eq!(
        hex(&salt),
        "cf83e1357eefb8bdf1542850d66d8007d620e4050b5715dc83f4a921d36ce9ce47d0d13c5d85f2b0ff8318d2877eec2f63b931bd47417a81a538327af927da3e"
    );
}

#[test]
fn password_hash_is_pbkdf2_sha512() {
    assert_eq!(PASSWORD_ROUNDS, 100_000);
    assert_eq!(HASH_LEN, 64);
    let salt: Vec<u8> = vec![1, 2, 3, 4, 5];
    assert_eq!(hex(&salt), SALT_HEX);
    assert_eq!(hash_password(&salt, PASSWORD_HEX), Some(PASSWORD_HASH.to_owned()));
    assert_eq!(hash_password(&salt, "not hex"), None);
}

#[test]
fn login_with_the_registered_password() {
    assert_eq!(check_password(SALT_HEX, PASSWORD_HEX, PASSWORD_HASH), PasswordCheck::Match);
}

#[test]
fn login_accepts_hexadecimal_of_either_case() {
    assert_eq!(check_password(SALT_HEX, "DEADBEEF", &PASSWORD_HASH.to_uppercase()), PasswordCheck::Match);
}

#[test]
fn login_with_another_password() {
    assert_eq!(check_password(SALT_HEX, NEW_PASSWORD_HEX, PASSWORD_HASH), PasswordCheck::Mismatch);
    assert_eq!(check_password(SALT_HEX, PASSWORD_HEX, ""), PasswordCheck::Mismatch);
}

#[test]
fn login_with_malformed_texts() {
    assert_eq!(check_password("xyz", PASSWORD_HEX, PASSWORD_HASH), PasswordCheck::DecodingIssue);
    assert_eq!(check_password(SALT_HEX, "abc", PASSWORD_HASH), PasswordCheck::DecodingIssue);
    assert_eq!(check_password(SALT_HEX, PASSWORD_HEX, "zz"), PasswordCheck::DecodingIssue);
}

#[test]
fn password_change_stores_the_new_hash() {
    match change_password(SALT_HEX, PASSWORD_HEX, NEW_PASSWORD_HEX, PASSWORD_HASH) {
        PasswordChange::Changed(h) => assert_eq!(h, NEW_PASSWORD_HASH),
        other => panic!("unexpected outcome: {:?}", other),
    }
}

#[test]
fn password_change_needs_the_current_password() {
    let res = change_password(SALT_HEX, NEW_PASSWORD_HEX, NEW_PASSWORD_HEX, PASSWORD_HASH);
    assert!(matches!(res, PasswordChange::InvalidCurrentPassword));
    let res = change_password(SALT_HEX, PASSWORD_HEX, "xyz", PASSWORD_HASH);
    assert!(matches!(res, PasswordChange::DecodingIssue));
}

#[test]
fn registration_form_checks() {
    assert_eq!(check_registration_form("a@b.c", "ann", "pw", "pw"), Ok(()));
    assert_eq!(check_registration_form("", "ann", "pw", "pw"), Err("some fields were left empty.".to_owned()));
    assert_eq!(check_registration_form("a@b.c", "ann", "pw", "px"), Err("the two passwords did not match.".to_owned()));
}

#[test]
fn password_change_form_checks() {
    assert_eq!(check_password_change_form("old", "new", "new"), Ok(()));
    assert_eq!(check_password_change_form("old", "", "new"), Err("some fields were left empty.".to_owned()));
    assert_eq!(check_password_change_form("old", "new", "neu"), Err("the two passwords did not match.".to_owned()));
}

#[test]
fn session_lengths() {
    assert_eq!(session_days(Some("on")), 30);
    assert_eq!(session_days(Some("off")), 1);
    assert_eq!(session_days(None), 1);
}

#[test]
fn registry_tokens_are_cut_to_25_characters() {
    assert_eq!(registry_token("abcdefghijklmnopqrstuvwxyz0123456789"), "abcdefghijklmnopqrstuvwxy");
}

#[test]
fn tokens_belong_to_their_author() {
    let token = Some(AuthorToken { id: 1, author_id: 7, token: "t".to_owned() });
    assert!(token_of_author(&token, 7));
    assert!(!token_of_author(&token, 8));
    assert!(!token_of_author(&None, 7));
}

#[test]
fn registered_password_logs_in() {
    let salt = salt_from(b"some random bytes");
    let hash = hash_password(&salt, "0123abcd").unwrap();
    let salt_hex = hex(&salt);
    assert_eq!(check_password(&salt_hex, "0123abcd", &hash), PasswordCheck::Match);
    assert_eq!(check_password(&salt_hex, "0123abce", &hash), PasswordCheck::Mismatch);
}
