use std::collections::HashMap;

use alexandrie::config::index::{CommandLineIndexConfig, Git2IndexConfig, IndexConfig};
use alexandrie::error::{AlexError, Error};
use alexandrie::index::cli::CommandLineIndex;
use alexandrie::index::file::File;
use alexandrie::index::git2::{
    branch_reference, merge_action, CredentialAction, CredentialAttempts, CredentialTypes,
    Git2Index, MergeAction,
};
use alexandrie::index::path::{compute_record_path, join_path};
use alexandrie::index::records::{collect_records, find_release, latest_index, latest_match_index};
use alexandrie::index::tree::{record_file_contents, Tree};
use alexandrie::index::{CrateDependency, CrateDependencyKind, CrateVersion};
use alexandrie::version::{Version, VersionReq};

fn record(name: &str, vers: &str) -> CrateVersion {
    CrateVersion {
        name: name.to_owned(),
        vers: Version::parse(vers).expect("a valid version"),
        deps: Vec::new(),
        cksum: "00".to_owned(),
        features: HashMap::new(),
        yanked: Some(false),
        links: None,
    }
}

fn with_cksum(mut r: CrateVersion, cksum: &str) -> CrateVersion {
    r.cksum = cksum.to_owned();
    r
}

fn ok_lines(versions: &[&str]) -> Vec<Result<CrateVersion, Error>> {
    versions.iter().map(|v| Ok(record("foo", v))).collect()
}

fn req(text: &str) -> VersionReq {
    VersionReq::parse(text).expect("a valid requirement")
}

fn is_not_found(e: &Error, name: &str) -> bool {
    matches!(e, Error::AlexError(AlexError::CrateNotFound { name: n }) if n == name)
}

#[test]
fn record_path_of_short_names() {
    assert_eq!(compute_record_path("crate-index", "a"), "crate-index/1/a");
    assert_eq!(compute_record_path("crate-index", "ab"), "crate-index/2/ab");
    assert_eq!(compute_record_path("crate-index", "abc"), "crate-index/3/a/abc");
}

#[test]
fn record_path_of_long_names() {
    assert_eq!(compute_record_path("crate-index", "serde"), "crate-index/se/rd/serde");
    assert_eq!(compute_record_path("crate-index", "rand"), "crate-index/ra/nd/rand");
}

#[test]
fn record_path_counts_the_bytes_of_names() {
    assert_eq!(compute_record_path("idx", "é"), "idx/2/é");
    assert_eq!(compute_record_path("idx", "aé"), "idx/3/a/aé");
    assert_eq!(compute_record_path("idx", "éé"), "idx/é/é/éé");
    assert_eq!(compute_record_path("idx", "abé"), "idx/ab/é/abé");
}

#[test]
fn record_path_under_other_roots() {
    assert_eq!(compute_record_path("/srv/index/", "log"), "/srv/index/3/l/log");
    assert_eq!(compute_record_path("", "ab"), "2/ab");
}

#[test]
fn distinct_names_have_distinct_record_paths() {
    let names = ["a", "b", "ab", "ba", "abc", "abd", "abcd", "abce", "ab-c", "serde", "serde_json"];
    for (i, n1) in names.iter().enumerate() {
        for n2 in names.iter().skip(i + 1) {
            assert_ne!(compute_record_path("idx", n1), compute_record_path("idx", n2));
        }
    }
}

#[test]
fn joining_paths() {
    assert_eq!(join_path("a".to_owned(), "b"), "a/b");
    assert_eq!(join_path("a/".to_owned(), "b"), "a/b");
    assert_eq!(join_path("".to_owned(), "b"), "b");
    assert_eq!(join_path("a".to_owned(), "/b"), "/b");
}

#[test]
fn index_strategies_compute_the_same_paths() {
    let cli = CommandLineIndex::new("idx".to_owned()).unwrap();
    let git = Git2Index::new("idx".to_owned()).unwrap();
    let tree = Tree::new("idx".to_owned());
    assert_eq!(cli.path(), "idx");
    assert_eq!(git.path(), "idx");
    assert_eq!(tree.path(), "idx");
    assert_eq!(cli.compute_record_path("serde"), "idx/se/rd/serde");
    assert_eq!(git.compute_record_path("serde"), "idx/se/rd/serde");
    assert_eq!(tree.compute_record_path("serde"), "idx/se/rd/serde");
}

#[test]
fn index_from_configuration() {
    let config = IndexConfig::CommandLine(CommandLineIndexConfig { path: "crate-index".to_owned() });
    assert_eq!(config.into_index().path(), "crate-index");
    let cli = CommandLineIndex::from(CommandLineIndexConfig { path: "a".to_owned() });
    assert_eq!(cli.path(), "a");
    let git = Git2Index::from(Git2IndexConfig { path: "b".to_owned() });
    assert_eq!(git.path(), "b");
}

#[test]
fn latest_index_picks_the_greatest_version() {
    let records = vec![record("foo", "0.1.0"), record("foo", "1.0.0"), record("foo", "0.9.0")];
    assert_eq!(latest_index(&records), 1);
}

#[test]
fn latest_index_picks_the_last_of_equal_versions() {
    let records = vec![record("foo", "1.0.0+a"), record("foo", "0.5.0"), record("foo", "1.0.0+b")];
    assert_eq!(latest_index(&records), 2);
}

#[test]
fn latest_match_index_skips_unreadable_and_unmatched_lines() {
    let lines = vec![Some(record("foo", "1.0.0")), None, Some(record("foo", "1.4.0")), Some(record("foo", "2.0.0"))];
    assert_eq!(latest_match_index(&lines, &req("^1")), Some(2));
    assert_eq!(latest_match_index(&lines, &req("^3")), None);
}

#[test]
fn tree_match_record_finds_the_greatest_match() {
    let tree = Tree::new("idx".to_owned());
    let lines = vec![Some(record("foo", "0.1.0")), Some(record("foo", "0.2.5")), None, Some(record("foo", "0.3.0"))];
    let found = tree.match_record("foo", lines, &req("^0.2")).unwrap();
    assert_eq!(found.vers.to_text(), "0.2.5");
}

#[test]
fn tree_match_record_without_match_is_not_found() {
    let tree = Tree::new("idx".to_owned());
    let lines = vec![Some(record("foo", "0.1.0")), None];
    let err = tree.match_record("foo", lines, &req("^2")).unwrap_err();
    assert!(is_not_found(&err, "foo"));
}

#[test]
fn collect_records_keeps_the_order() {
    let records = collect_records(ok_lines(&["1.0.0", "0.1.0", "2.0.0"])).unwrap();
    let texts: Vec<String> = records.iter().map(|r| r.vers.to_text()).collect();
    assert_eq!(texts, vec!["1.0.0", "0.1.0", "2.0.0"]);
}

#[test]
fn collect_records_stops_at_the_first_unreadable_line() {
    let lines = vec![
        Ok(record("foo", "1.0.0")),
        Err(Error::JSONError("first".to_owned())),
        Err(Error::JSONError("second".to_owned())),
    ];
    let err = collect_records(lines).unwrap_err();
    assert!(matches!(err, Error::JSONError(m) if m == "first"));
}

#[test]
fn tree_all_records() {
    let tree = Tree::new("idx".to_owned());
    assert_eq!(tree.all_records(ok_lines(&["0.1.0", "0.2.0"])).unwrap().len(), 2);
    assert!(tree.all_records(vec![Err(Error::IOError("gone".to_owned()))]).is_err());
}

#[test]
fn tree_latest_record() {
    let tree = Tree::new("idx".to_owned());
    let latest = tree.latest_record(ok_lines(&["0.1.0", "1.2.0", "1.1.0"])).unwrap();
    assert_eq!(latest.vers.to_text(), "1.2.0");
    let err = tree.latest_record(vec![Ok(record("foo", "0.1.0")), Err(Error::JSONError("bad".to_owned()))]).unwrap_err();
    assert!(matches!(err, Error::JSONError(m) if m == "bad"));
}

#[test]
fn tree_add_record_to_a_new_crate() {
    let tree = Tree::new("idx".to_owned());
    let added = tree.add_record(None, record("foo", "0.1.0")).unwrap();
    assert_eq!(added.vers.to_text(), "0.1.0");
}

#[test]
fn tree_add_record_of_a_higher_version() {
    let tree = Tree::new("idx".to_owned());
    let added = tree.add_record(Some(ok_lines(&["0.1.0", "0.2.0"])), record("foo", "0.3.0")).unwrap();
    assert_eq!(added.vers.to_text(), "0.3.0");
}

#[test]
fn tree_add_record_of_a_lower_version_is_refused() {
    let tree = Tree::new("idx".to_owned());
    let err = tree.add_record(Some(ok_lines(&["0.1.0", "0.2.0"])), record("foo", "0.2.0")).unwrap_err();
    match err {
        Error::AlexError(AlexError::VersionTooLow { krate, hosted, published }) => {
            assert_eq!(krate, "foo");
            assert_eq!(hosted.to_text(), "0.2.0");
            assert_eq!(published.to_text(), "0.2.0");
        },
        other => panic!("unexpected outcome: {:?}", other),
    }
}

#[test]
fn tree_add_record_to_an_unreadable_file_fails() {
    let tree = Tree::new("idx".to_owned());
    let lines = vec![Err(Error::JSONError("bad".to_owned())), Ok(record("foo", "0.1.0"))];
    let err = tree.add_record(Some(lines), record("foo", "1.0.0")).unwrap_err();
    assert!(matches!(err, Error::JSONError(m) if m == "bad"));
}

#[test]
fn tree_yank_record_sets_the_flag_of_that_version_only() {
    let tree = Tree::new("idx".to_owned());
    let records = tree.yank_record("foo", ok_lines(&["0.1.0", "0.2.0", "0.3.0"]), &Version::parse("0.2.0").unwrap()).unwrap();
    let flags: Vec<Option<bool>> = records.iter().map(|r| r.yanked).collect();
    assert_eq!(flags, vec![Some(false), Some(true), Some(false)]);
}

#[test]
fn tree_unyank_after_yank_restores_the_records() {
    let tree = Tree::new("idx".to_owned());
    let v = Version::parse("0.2.0").unwrap();
    let yanked = tree.yank_record("foo", ok_lines(&["0.1.0", "0.2.0"]), &v).unwrap();
    let restored = tree.unyank_record("foo", yanked.into_iter().map(Ok).collect(), &v).unwrap();
    let flags: Vec<Option<bool>> = restored.iter().map(|r| r.yanked).collect();
    assert_eq!(flags, vec![Some(false), Some(false)]);
}

#[test]
fn tree_yank_record_of_an_unknown_version_is_not_found() {
    let tree = Tree::new("idx".to_owned());
    let err = tree.yank_record("foo", ok_lines(&["0.1.0"]), &Version::parse("9.9.9").unwrap()).unwrap_err();
    assert!(is_not_found(&err, "foo"));
    let err = tree.unyank_record("foo", ok_lines(&["0.1.0"]), &Version::parse("9.9.9").unwrap()).unwrap_err();
    assert!(is_not_found(&err, "foo"));
}

#[test]
fn tree_alter_record_changes_the_first_record_of_that_release() {
    let tree = Tree::new("idx".to_owned());
    let lines = vec![Ok(with_cksum(record("foo", "1.0.0+a", ), "a")), Ok(with_cksum(record("foo", "1.0.0+b"), "b"))];
    let records = tree
        .alter_record("foo", lines, &Version::parse("1.0.0").unwrap(), |mut c: CrateVersion| {
            c.cksum = "changed".to_owned();
            c
        })
        .unwrap();
    let sums: Vec<&str> = records.iter().map(|r| r.cksum.as_str()).collect();
    assert_eq!(sums, vec!["changed", "b"]);
}

#[test]
fn find_release_finds_the_first_of_a_release() {
    let records = vec![record("foo", "0.1.0"), record("foo", "1.0.0+x"), record("foo", "1.0.0")];
    assert_eq!(find_release(&records, &Version::parse("1.0.0").unwrap()), Some(1));
    assert_eq!(find_release(&records, &Version::parse("2.0.0").unwrap()), None);
}

#[test]
fn record_file_has_one_line_per_record() {
    let lines = vec!["{\"a\":1}".to_owned(), "{\"b\":2}".to_owned()];
    assert_eq!(record_file_contents(&lines), "{\"a\":1}\n{\"b\":2}\n");
    assert_eq!(record_file_contents(&vec!["x".to_owned()]), "x\n");
}

#[test]
fn crate_version_yank_and_unyank() {
    let mut r = record("foo", "0.1.0");
    r.yank();
    assert_eq!(r.yanked, Some(true));
    r.unyank();
    assert_eq!(r.yanked, Some(false));
    assert_eq!(r.name, "foo");
}

#[test]
fn file_open_orders_records_and_keeps_the_last_of_equal_versions() {
    let lines = vec![
        Ok(with_cksum(record("foo", "1.0.0"), "first")),
        Ok(record("foo", "0.1.0")),
        Ok(with_cksum(record("foo", "1.0.0"), "second")),
        Ok(record("foo", "0.5.0")),
    ];
    let file = File::open("idx/3/f/foo".to_owned(), lines).unwrap();
    assert_eq!(file.path(), "idx/3/f/foo");
    let texts: Vec<String> = file.records().iter().map(|r| r.vers.to_text()).collect();
    assert_eq!(texts, vec!["0.1.0", "0.5.0", "1.0.0"]);
    assert_eq!(file.records()[2].cksum, "second");
}

#[test]
fn file_open_fails_on_an_unreadable_line() {
    let lines = vec![Ok(record("foo", "0.1.0")), Err(Error::JSONError("bad".to_owned()))];
    let err = File::open("p".to_owned(), lines).err().unwrap();
    assert!(matches!(err, Error::JSONError(m) if m == "bad"));
}

#[test]
fn file_yank_and_unyank() {
    let mut file = File::open("p".to_owned(), ok_lines(&["0.1.0", "0.2.0"])).unwrap();
    file.yank(&Version::parse("0.2.0").unwrap()).unwrap();
    assert_eq!(file.records()[1].yanked, Some(true));
    assert_eq!(file.records()[0].yanked, Some(false));
    file.unyank(&Version::parse("0.2.0").unwrap()).unwrap();
    assert_eq!(file.records()[1].yanked, Some(false));
}

#[test]
fn file_yank_of_an_unknown_version_changes_nothing() {
    let mut file = File::open("p".to_owned(), ok_lines(&["0.1.0"])).unwrap();
    let err = file.yank(&Version::parse("3.0.0").unwrap()).unwrap_err();
    assert!(is_not_found(&err, "populate me properly"));
    assert_eq!(file.records().len(), 1);
    assert_eq!(file.records()[0].yanked, Some(false));
}

#[test]
fn dependency_records_hold_their_fields() {
    let dep = CrateDependency {
        name: "rand".to_owned(),
        req: req("^0.7"),
        features: vec!["std".to_owned()],
        optional: false,
        default_features: true,
        target: None,
        kind: CrateDependencyKind::Dev,
        registry: None,
        package: None,
    };
    assert_eq!(dep.req.as_str(), "^0.7");
    assert_eq!(dep.kind, CrateDependencyKind::Dev);
}

#[test]
fn credentials_are_tried_once_each_in_order() {
    let mut attempts = CredentialAttempts::new();
    let all = CredentialTypes { username: false, ssh_key: true, user_pass_plaintext: true, default: true };
    assert_eq!(attempts.next_action(all), CredentialAction::SshKeyFromAgent);
    assert_eq!(attempts.next_action(all), CredentialAction::CredentialHelper);
    assert_eq!(attempts.next_action(all), CredentialAction::DefaultCredentials);
    assert_eq!(attempts.next_action(all), CredentialAction::NoMethodLeft);
    assert!(attempts.tried_sshkey && attempts.tried_cred_helper && attempts.tried_default);
}

#[test]
fn credentials_only_of_the_allowed_kinds() {
    let mut attempts = CredentialAttempts::new();
    let plain = CredentialTypes { username: false, ssh_key: false, user_pass_plaintext: true, default: false };
    assert_eq!(attempts.next_action(plain), CredentialAction::CredentialHelper);
    assert_eq!(attempts.next_action(plain), CredentialAction::NoMethodLeft);
    assert!(!attempts.tried_sshkey);
}

#[test]
fn credentials_asking_for_a_username_are_refused() {
    let mut attempts = CredentialAttempts::new();
    let user = CredentialTypes { username: true, ssh_key: true, user_pass_plaintext: true, default: true };
    assert_eq!(attempts.next_action(user), CredentialAction::NoUsername);
    assert_eq!(attempts, CredentialAttempts::new());
}

#[test]
fn merging_the_fetched_commit() {
    assert_eq!(merge_action(true, true), MergeAction::UpToDate);
    assert_eq!(merge_action(true, false), MergeAction::UpToDate);
    assert_eq!(merge_action(false, true), MergeAction::FastForward);
    assert_eq!(merge_action(false, false), MergeAction::Refuse);
}

#[test]
fn branch_references() {
    assert_eq!(branch_reference("master"), "refs/heads/master");
}

#[test]
fn added_record_becomes_the_latest() {
    let tree = Tree::new("idx".to_owned());
    let added = tree.add_record(Some(ok_lines(&["0.1.0", "0.3.0", "0.2.0"])), record("foo", "0.4.0")).unwrap();
    let mut lines = ok_lines(&["0.1.0", "0.3.0", "0.2.0"]);
    lines.push(Ok(added));
    assert_eq!(tree.latest_record(lines).unwrap().vers.to_text(), "0.4.0");
}

#[test]
fn yanking_keeps_the_latest_record() {
    let tree = Tree::new("idx".to_owned());
    let before = tree.latest_record(ok_lines(&["0.1.0", "0.2.0"])).unwrap();
    let yanked = tree.yank_record("foo", ok_lines(&["0.1.0", "0.2.0"]), &Version::parse("0.2.0").unwrap()).unwrap();
    let after = tree.latest_record(yanked.into_iter().map(Ok).collect()).unwrap();
    assert_eq!(after.vers.to_text(), before.vers.to_text());
    assert_eq!(after.yanked, Some(true));
}
