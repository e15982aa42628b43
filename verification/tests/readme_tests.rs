use alexandrie::api::readme::crate_readme;
use alexandrie::error::Error;
use alexandrie::version::Version;

fn archive(files: &[(&str, &[u8])]) -> Vec<u8> {
    let encoder = flate2::write::GzEncoder::new(Vec::new(), flate2::Compression::default());
    let mut builder = tar::Builder::new(encoder);
    for (path, data) in files {
        let mut header = tar::Header::new_gnu();
        header.set_size(data.len() as u64);
        header.set_mode(0o644);
        builder.append_data(&mut header, path, *data).unwrap();
    }
    builder.into_inner().unwrap().finish().unwrap()
}

fn release(text: &str) -> Version {
    Version::parse(text).unwrap()
}

#[test]
fn readme_is_found_in_the_archive() {
    let bytes = archive(&[("foo-0.1.0/Cargo.toml", b"[package]"), ("foo-0.1.0/README.md", b"# Foo")]);
    let readme = crate_readme("foo", &release("0.1.0"), &bytes).unwrap();
    assert_eq!(readme, Some("# Foo".to_owned()));
}

#[test]
fn first_readme_of_that_path_is_taken() {
    let bytes = archive(&[
        ("foo-0.1.0/src/README.md", b"inner"),
        ("foo-0.1.0/README.md", b"first"),
        ("foo-0.1.0/README.md", b"second"),
    ]);
    assert_eq!(crate_readme("foo", &release("0.1.0"), &bytes).unwrap(), Some("first".to_owned()));
}

#[test]
fn readme_of_another_version_is_not_taken() {
    let bytes = archive(&[("foo-0.2.0/README.md", b"# Foo")]);
    assert_eq!(crate_readme("foo", &release("0.1.0"), &bytes).unwrap(), None);
    assert_eq!(crate_readme("bar", &release("0.2.0"), &bytes).unwrap(), None);
}

#[test]
fn archive_without_readme() {
    let bytes = archive(&[("foo-0.1.0/Cargo.toml", b"[package]")]);
    assert_eq!(crate_readme("foo", &release("0.1.0"), &bytes).unwrap(), None);
}

#[test]
fn readme_that_is_not_text_is_an_error() {
    let bytes = archive(&[("foo-0.1.0/README.md", &[0xff, 0xfe, 0x00])]);
    let err = crate_readme("foo", &release("0.1.0"), &bytes).unwrap_err();
    assert!(matches!(err, Error::IOError(_)));
}

#[test]
fn bytes_that_are_no_archive() {
    let bytes = b"this is not a gzip stream".to_vec();
    // The listing of the entries stops at the first unreadable one, which is passed over.
    assert_eq!(crate_readme("foo", &release("0.1.0"), &bytes).unwrap(), None);
}
