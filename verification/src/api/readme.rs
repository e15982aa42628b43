//! The README of a published crate, looked up in its gzip-compressed tar archive.
use vstd::prelude::*;

use crate::api::publish::readme_path;
use crate::error::Error;
use crate::index::path::path_join;
use crate::version::{version_text, Version};

verus! {

/// A component of a path, as `std::path::Component` tells them apart.
#[derive(Debug)]
pub enum PathPart {
    /// A Windows path prefix, such as `C:`.
    Prefix(String),
    /// The root directory.
    Root,
    /// A `.` at the start of a relative path.
    Current,
    /// A `..`.
    Parent,
    /// A name.
    Normal(String),
}

/// What a component of a path is, mathematically.
pub ghost enum PathPartView {
    Prefix(Seq<char>),
    Root,
    Current,
    Parent,
    Normal(Seq<char>),
}

impl View for PathPart {
    type V = PathPartView;

    open spec fn view(&self) -> PathPartView {
        match self {
            PathPart::Prefix(s) => PathPartView::Prefix(s@),
            PathPart::Root => PathPartView::Root,
            PathPart::Current => PathPartView::Current,
            PathPart::Parent => PathPartView::Parent,
            PathPart::Normal(s) => PathPartView::Normal(s@),
        }
    }
}

/// The views of a list of path components.
pub open spec fn parts_view(parts: Seq<PathPart>) -> Seq<PathPartView> {
    parts.map_values(|p: PathPart| p@)
}

/// The views of a list of optional texts.
pub open spec fn optional_texts(v: Seq<Option<String>>) -> Seq<Option<Seq<char>>> {
    v.map_values(
        |o: Option<String>|
            match o {
                Some(s) => Some(s@),
                None => None,
            },
    )
}

/// The components of a path given as text, as `std::path::Path::components` gives them:
/// two paths are equal when their components are.
pub uninterp spec fn path_components(path: Seq<char>) -> Seq<PathPartView>;

/// The paths, as texts, of the entries of a gzip-compressed tar archive, in order (`None`
/// for an entry or a path that cannot be read, or that is not UTF-8), or the message of
/// the error that prevents listing the entries.
pub uninterp spec fn archive_entry_paths(archive: Seq<u8>) -> Result<Seq<Option<Seq<char>>>, Seq<char>>;

/// The contents, as UTF-8 text, of the entry at `index` of a gzip-compressed tar archive,
/// or the message of the error of reading them.
pub uninterp spec fn archive_entry_text(archive: Seq<u8>, index: int) -> Result<Seq<char>, Seq<char>>;

/// Calls `std::path::Path::components` on a text, each component converted to a
/// `PathPart` of the same kind and text; the contract names them `path_components`.
#[verifier::external_body]
fn path_parts(path: &str) -> (res: Vec<PathPart>)
    ensures
        parts_view(res@) == path_components(path@),
{
    std::path::Path::new(path).components().map(|c| match c {
        std::path::Component::Prefix(p) => PathPart::Prefix(p.as_os_str().to_string_lossy().into_owned()),
        std::path::Component::RootDir => PathPart::Root,
        std::path::Component::CurDir => PathPart::Current,
        std::path::Component::ParentDir => PathPart::Parent,
        std::path::Component::Normal(s) => PathPart::Normal(s.to_string_lossy().into_owned()),
    }).collect()
}

/// Calls `tar::Archive::entries` on a `flate2::read::GzDecoder` of the bytes and gives the
/// path of each entry as text (`Entry::path`, then `Path::to_str`); the contract names the
/// outcome `archive_entry_paths`.
#[verifier::external_body]
fn archive_paths(archive: &[u8]) -> (res: Result<Vec<Option<String>>, String>)
    ensures
        match res {
            Ok(v) => archive_entry_paths(archive@) == Ok::<Seq<Option<Seq<char>>>, Seq<char>>(optional_texts(v@)),
            Err(m) => archive_entry_paths(archive@) == Err::<Seq<Option<Seq<char>>>, Seq<char>>(m@),
        },
{
    let mut archive = tar::Archive::new(flate2::read::GzDecoder::new(archive));
    let entries = archive.entries().map_err(|e| e.to_string())?;
    Ok(entries.map(|e| e.ok().and_then(|e| e.path().ok().and_then(|p| p.to_str().map(String::from)))).collect())
}

/// Calls `tar::Archive::entries` on a `flate2::read::GzDecoder` of the bytes, takes the
/// entry at `index` and reads it with `std::io::Read::read_to_string`; the contract names
/// the outcome `archive_entry_text`. The listing of the same bytes found that entry, so
/// the decoding gets to it again.
#[verifier::external_body]
fn entry_text(archive: &[u8], index: usize) -> (res: Result<String, String>)
    requires
        archive_entry_paths(archive@) matches Ok(paths) && index < paths.len() && paths[index as int] is Some,
    ensures
        match res {
            Ok(t) => archive_entry_text(archive@, index as int) == Ok::<Seq<char>, Seq<char>>(t@),
            Err(m) => archive_entry_text(archive@, index as int) == Err::<Seq<char>, Seq<char>>(m@),
        },
{
    let mut archive = tar::Archive::new(flate2::read::GzDecoder::new(archive));
    let found = archive.entries().map_err(|e| e.to_string())?.nth(index).unwrap();
    let mut entry = found.map_err(|e| e.to_string())?;
    let mut text = String::new();
    std::io::Read::read_to_string(&mut entry, &mut text).map_err(|e| e.to_string())?;
    Ok(text)
}

/// Whether two path components are the same.
fn same_part(a: &PathPart, b: &PathPart) -> (res: bool)
    ensures
        res == (a@ == b@),
{
    match (a, b) {
        (PathPart::Prefix(x), PathPart::Prefix(y)) => *x == *y,
        (PathPart::Root, PathPart::Root) => true,
        (PathPart::Current, PathPart::Current) => true,
        (PathPart::Parent, PathPart::Parent) => true,
        (PathPart::Normal(x), PathPart::Normal(y)) => *x == *y,
        _ => false,
    }
}

/// Whether two paths have the same components.
fn same_parts(a: &Vec<PathPart>, b: &Vec<PathPart>) -> (res: bool)
    ensures
        res == (parts_view(a@) == parts_view(b@)),
{
    if a.len() != b.len() {
        assert(parts_view(a@).len() != parts_view(b@).len());
        return false;
    }
    let mut i: usize = 0;
    while i < a.len()
        invariant
            a.len() == b.len(),
            i <= a.len(),
            forall|j: int| 0 <= j < i ==> a@[j]@ == b@[j]@,
        decreases a.len() - i,
    {
        if !same_part(&a[i], &b[i]) {
            assert(parts_view(a@)[i as int] != parts_view(b@)[i as int]);
            return false;
        }
        i = i + 1;
    }
    assert(parts_view(a@) =~= parts_view(b@));
    true
}

/// The entry at `i` of an archive's listing has the path `wanted`.
pub open spec fn entry_is(paths: Seq<Option<Seq<char>>>, wanted: Seq<PathPartView>, i: int) -> bool {
    paths[i] matches Some(t) && path_components(t) == wanted
}

/// The entry at `i` is the first one of an archive's listing with the path `wanted`.
pub open spec fn is_first_entry(paths: Seq<Option<Seq<char>>>, wanted: Seq<PathPartView>, i: int) -> bool {
    &&& 0 <= i < paths.len()
    &&& entry_is(paths, wanted, i)
    &&& forall|j: int| 0 <= j < i ==> !entry_is(paths, wanted, j)
}

/// What looking up the file of path `wanted` in an archive gives: the text of the first
/// entry of that path, `None` when there is none, and an I/O error with the message of
/// the failure when the entries cannot be listed or that entry cannot be read as text.
pub open spec fn lookup_outcome(archive: Seq<u8>, wanted: Seq<PathPartView>, res: Result<Option<String>, Error>) -> bool {
    match archive_entry_paths(archive) {
        Err(m) => res matches Err(Error::IOError(e)) && e@ == m,
        Ok(paths) => if exists|i: int| #[trigger] is_first_entry(paths, wanted, i) {
            exists|i: int|
                #[trigger] is_first_entry(paths, wanted, i) && match archive_entry_text(archive, i) {
                    Ok(t) => res matches Ok(Some(s)) && s@ == t,
                    Err(m) => res matches Err(Error::IOError(e)) && e@ == m,
                }
        } else {
            res matches Ok(None)
        },
    }
}

/// The path of the README in the archive of crate `name` at version `vers`.
pub open spec fn readme_path_text(name: Seq<char>, vers: Seq<char>) -> Seq<char> {
    path_join(name + "-"@ + vers, "README.md"@)
}

/// The README of a published crate: the text of the first entry of its archive whose path
/// is `<name>-<version>/README.md` (paths compared component by component), or `None`.
pub fn crate_readme(name: &str, vers: &Version, archive: &[u8]) -> (res: Result<Option<String>, Error>)
    ensures
        lookup_outcome(archive@, path_components(readme_path_text(name@, version_text(vers@))), res),
{
    let path = readme_path(name, vers);
    let wanted = path_parts(path.as_str());
    let ghost wanted_view = path_components(readme_path_text(name@, version_text(vers@)));
    match archive_paths(archive) {
        Err(m) => Err(Error::IOError(m)),
        Ok(paths) => {
            let ghost listed = optional_texts(paths@);
            let mut i: usize = 0;
            while i < paths.len()
                invariant
                    i <= paths.len(),
                    listed == optional_texts(paths@),
                    archive_entry_paths(archive@) == Ok::<Seq<Option<Seq<char>>>, Seq<char>>(listed),
                    parts_view(wanted@) == wanted_view,
                    wanted_view == path_components(readme_path_text(name@, version_text(vers@))),
                    forall|j: int| 0 <= j < i ==> !entry_is(listed, wanted_view, j),
                decreases paths.len() - i,
            {
                if let Some(t) = &paths[i] {
                    let parts = path_parts(t.as_str());
                    if same_parts(&parts, &wanted) {
                        assert(is_first_entry(listed, wanted_view, i as int));
                        let read = entry_text(archive, i);
                        let res = match read {
                            Ok(text) => Ok(Some(text)),
                            Err(m) => Err(Error::IOError(m)),
                        };
                        assert(match archive_entry_text(archive@, i as int) {
                            Ok(t) => res matches Ok(Some(s)) && s@ == t,
                            Err(m) => res matches Err(Error::IOError(e)) && e@ == m,
                        });
                        return res;
                    }
                }
                i = i + 1;
            }
            assert forall|k: int| !is_first_entry(listed, wanted_view, k) by {
                if 0 <= k < listed.len() {
                    assert(!entry_is(listed, wanted_view, k));
                }
            }
            Ok(None)
        },
    }
}

} // verus!
