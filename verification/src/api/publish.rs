//! Publishing a crate (`cargo publish`): reading the request's body, describing the crate
//! for the index, and the checks and messages of the publication.
use vstd::prelude::*;

use std::collections::HashMap;

use sha2::Digest;

use crate::db::models::Author;
use crate::encoding::{hex_encode, hex_text};
use crate::error::{AlexError, Error};
use crate::index::path::{join_path, path_join};
use crate::krate::{Crate, Dependency, DependencyKind};
use crate::text::{push_text};
use crate::version::{version_le, version_text, Version, VersionReq};

verus! {

/// The metadata of a crate that `cargo publish` sends.
pub struct APICrateMeta {
    /// The name of the crate.
    pub name: String,
    /// The version of the crate.
    pub vers: Version,
    /// The dependencies of the crate.
    pub deps: Vec<APICrateDependency>,
    /// The features of the crate and what they enable.
    pub features: HashMap<String, Vec<String>>,
    /// The authors of the crate.
    pub authors: Vec<String>,
    /// The description of the crate.
    pub description: Option<String>,
    /// The homepage of the crate.
    pub homepage: Option<String>,
    /// The URL to the crate's documentation.
    pub documentation: Option<String>,
    /// The contents of the crate's README.
    pub readme: Option<String>,
    /// The path of the crate's README.
    pub readme_file: Option<String>,
    /// The keywords of the crate.
    pub keywords: Option<Vec<String>>,
    /// The categories of the crate.
    pub categories: Option<Vec<String>>,
    /// The license of the crate.
    pub license: Option<String>,
    /// The path of the crate's license file.
    pub license_file: Option<String>,
    /// The URL to the crate's repository.
    pub repository: Option<String>,
    /// The native library the crate links to, if any.
    pub links: Option<String>,
}

/// A dependency, as `cargo publish` sends it.
pub struct APICrateDependency {
    /// The name of the dependency's crate.
    pub name: String,
    /// The version requirement for the dependency.
    pub version_req: VersionReq,
    /// The features requested for the dependency.
    pub features: Vec<String>,
    /// Is the dependency optional.
    pub optional: bool,
    /// Are the default features requested for the dependency.
    pub default_features: bool,
    /// The target of the dependency.
    pub target: Option<String>,
    /// The kind of the dependency.
    pub kind: Option<DependencyKind>,
    /// The URL of the index of the registry where this dependency is from.
    pub registry: Option<String>,
    /// The name the dependency is renamed to in the manifest, if it is renamed.
    pub explicit_name: Option<String>,
}

/// The unsigned number that four bytes starting at `at` hold, least significant first.
pub open spec fn le_u32(b: Seq<u8>, at: int) -> int {
    b[at] as int + 256 * (b[at + 1] as int) + 65536 * (b[at + 2] as int) + 16777216 * (b[at + 3] as int)
}

/// The four bytes of a number, least significant first, as `u32::to_le_bytes` gives them.
pub open spec fn le_bytes(n: u32) -> Seq<u8> {
    seq![(n & 0xff) as u8, ((n >> 8) & 0xff) as u8, ((n >> 16) & 0xff) as u8, ((n >> 24) & 0xff) as u8]
}

/// The body that `cargo publish` sends for some metadata and a crate archive: each part
/// preceded by its length in four bytes, least significant first.
pub open spec fn publish_body(meta: Seq<u8>, krate: Seq<u8>) -> Seq<u8> {
    le_bytes(meta.len() as u32) + meta + le_bytes(krate.len() as u32) + krate
}

/// Four bytes read as a number, least significant first, give back the number they were
/// written from.
pub proof fn law_le_u32_reads_le_bytes(n: u32)
    ensures
        le_u32(le_bytes(n), 0) == n,
{
    let b = le_bytes(n);
    let b0: u32 = n & 0xff;
    let b1: u32 = (n >> 8) & 0xff;
    let b2: u32 = (n >> 16) & 0xff;
    let b3: u32 = (n >> 24) & 0xff;
    assert(b0 < 256 && b1 < 256 && b2 < 256 && b3 < 256) by (bit_vector)
        requires
            b0 == n & 0xff,
            b1 == (n >> 8) & 0xff,
            b2 == (n >> 16) & 0xff,
            b3 == (n >> 24) & 0xff,
    ;
    assert(b[0] as int == b0 && b[1] as int == b1 && b[2] as int == b2 && b[3] as int == b3);
    assert(b0 + 256 * b1 + 65536 * b2 + 16777216 * b3 == n) by (bit_vector)
        requires
            b0 == n & 0xff,
            b1 == (n >> 8) & 0xff,
            b2 == (n >> 16) & 0xff,
            b3 == (n >> 24) & 0xff,
    ;
}

/// Reading the body that `cargo publish` sends for some metadata and an archive (each
/// shorter than 2^32 bytes) gives back exactly that metadata and that archive, whatever
/// their lengths.
pub proof fn law_publish_body_round_trip(meta: Seq<u8>, krate: Seq<u8>, res: Result<(Vec<u8>, Vec<u8>), Error>)
    requires
        meta.len() <= u32::MAX,
        krate.len() <= u32::MAX,
        publish_body_outcome(publish_body(meta, krate), res),
    ensures
        res matches Ok((m, k)) && m@ == meta && k@ == krate,
{
    let body = publish_body(meta, krate);
    let m = meta.len() as int;
    let c = krate.len() as int;
    law_le_u32_reads_le_bytes(m as u32);
    law_le_u32_reads_le_bytes(c as u32);
    let lm = le_bytes(m as u32);
    let lc = le_bytes(c as u32);
    assert(body.len() == 8 + m + c);
    assert(body[0] == lm[0] && body[1] == lm[1] && body[2] == lm[2] && body[3] == lm[3]);
    assert(le_u32(body, 0) == m);
    assert(body[4 + m] == lc[0] && body[5 + m] == lc[1] && body[6 + m] == lc[2] && body[7 + m] == lc[3]);
    assert(le_u32(body, 4 + m) == c);
    assert(body.subrange(4, 4 + m) =~= meta);
    assert(body.subrange(8 + m, 8 + m + c) =~= krate);
}

/// The error of a body that ends before what it announces.
pub open spec fn is_truncated(e: Error) -> bool {
    e matches Error::IOError(m) && m@ == "failed to fill whole buffer"@
}

/// What reading the body of a publication request gives: a four-byte length (least
/// significant byte first) and that many bytes of JSON metadata, then a four-byte length
/// and that many bytes of crate archive; a body that ends too early is refused.
pub open spec fn publish_body_outcome(body: Seq<u8>, res: Result<(Vec<u8>, Vec<u8>), Error>) -> bool {
    if body.len() < 4 {
        res matches Err(e) && is_truncated(e)
    } else {
        let m = le_u32(body, 0);
        if body.len() < 8 + m {
            res matches Err(e) && is_truncated(e)
        } else {
            let c = le_u32(body, 4 + m);
            if body.len() < 8 + m + c {
                res matches Err(e) && is_truncated(e)
            } else {
                res matches Ok((meta, krate)) && meta@ == body.subrange(4, 4 + m) && krate@
                    == body.subrange(8 + m, 8 + m + c)
            }
        }
    }
}

/// What reading the metadata part of a publication request's body gives: the bytes that
/// the four-byte length at its start announces, or a refusal when the body ends too early.
pub open spec fn publish_metadata_outcome(body: Seq<u8>, res: Result<Vec<u8>, Error>) -> bool {
    if body.len() < 4 || body.len() < 4 + le_u32(body, 0) {
        res matches Err(e) && is_truncated(e)
    } else {
        res matches Ok(meta) && meta@ == body.subrange(4, 4 + le_u32(body, 0))
    }
}

/// What reading the archive part of a publication request's body gives: the bytes that
/// the four-byte length after the metadata announces, or a refusal when the body ends
/// too early.
pub open spec fn publish_archive_outcome(body: Seq<u8>, res: Result<Vec<u8>, Error>) -> bool {
    if body.len() < 4 || body.len() < 8 + le_u32(body, 0) {
        res matches Err(e) && is_truncated(e)
    } else {
        let m = le_u32(body, 0);
        let c = le_u32(body, 4 + m);
        if body.len() < 8 + m + c {
            res matches Err(e) && is_truncated(e)
        } else {
            res matches Ok(krate) && krate@ == body.subrange(8 + m, 8 + m + c)
        }
    }
}

/// The SHA-256 digest of some bytes, as `sha2` computes it.
pub uninterp spec fn sha256_digest(data: Seq<u8>) -> Seq<u8>;

/// The unsigned number that the first four bytes hold, least significant first.
fn read_le_u32(buf: &[u8]) -> (res: u32)
    requires
        buf@.len() >= 4,
    ensures
        res as int == le_u32(buf@, 0),
{
    let b0: u32 = buf[0] as u32;
    let b1: u32 = buf[1] as u32;
    let b2: u32 = buf[2] as u32;
    let b3: u32 = buf[3] as u32;
    b0 + 256 * b1 + 65536 * b2 + 16777216 * b3
}

/// Calls `sha2::Sha256::digest`; the contract names the digest `sha256_digest` and
/// states that it has 32 bytes, as the output size of SHA-256 is.
#[verifier::external_body]
fn sha256(data: &[u8]) -> (res: Vec<u8>)
    ensures
        res@ == sha256_digest(data@),
        res@.len() == 32,
{
    sha2::Sha256::digest(data).to_vec()
}

/// The bytes of `b` from `from` up to `to`.
fn copy_bytes(b: &[u8], from: usize, to: usize) -> (res: Vec<u8>)
    requires
        from <= to <= b@.len(),
    ensures
        res@ == b@.subrange(from as int, to as int),
{
    let mut res: Vec<u8> = Vec::new();
    let mut i = from;
    while i < to
        invariant
            from <= i <= to <= b@.len(),
            res@ == b@.subrange(from as int, i as int),
        decreases to - i,
    {
        res.push(b[i]);
        i = i + 1;
        assert(res@ =~= b@.subrange(from as int, i as int));
    }
    res
}

fn truncated() -> (e: Error)
    ensures
        is_truncated(e),
{
    Error::IOError("failed to fill whole buffer".to_owned())
}

/// Reads the JSON metadata of a publication request: the four-byte length at its start
/// and that many bytes.
pub fn read_publish_metadata(body: &[u8]) -> (res: Result<Vec<u8>, Error>)
    ensures
        publish_metadata_outcome(body@, res),
{
    let len = body.len();
    if len < 4 {
        return Err(truncated());
    }
    let meta_len = read_le_u32(body);
    let meta_end_u64: u64 = 4u64 + meta_len as u64;
    if (len as u64) < meta_end_u64 {
        return Err(truncated());
    }
    Ok(copy_bytes(body, 4, meta_end_u64 as usize))
}

/// Reads the crate archive of a publication request: the four-byte length that follows
/// the metadata, and that many bytes.
pub fn read_publish_archive(body: &[u8]) -> (res: Result<Vec<u8>, Error>)
    ensures
        publish_archive_outcome(body@, res),
{
    let len = body.len();
    if len < 4 {
        return Err(truncated());
    }
    let meta_len = read_le_u32(body);
    let meta_end_u64: u64 = 4u64 + meta_len as u64;
    if (len as u64) < meta_end_u64 + 4 {
        return Err(truncated());
    }
    let meta_end = meta_end_u64 as usize;
    let rest = &body[meta_end..len];
    assert(rest@ =~= body@.subrange(meta_end as int, len as int));
    let crate_len = read_le_u32(rest);
    assert(le_u32(rest@, 0) == le_u32(body@, 4 + meta_len));
    let crate_end_u64: u64 = meta_end_u64 + 4 + crate_len as u64;
    if (len as u64) < crate_end_u64 {
        return Err(truncated());
    }
    Ok(copy_bytes(body, meta_end + 4, crate_end_u64 as usize))
}

/// Reads the body of a publication request into the crate's JSON metadata and the bytes
/// of its archive.
pub fn read_publish_body(body: &[u8]) -> (res: Result<(Vec<u8>, Vec<u8>), Error>)
    ensures
        publish_body_outcome(body@, res),
{
    match read_publish_metadata(body) {
        Err(e) => Err(e),
        Ok(meta) => match read_publish_archive(body) {
            Err(e) => Err(e),
            Ok(krate) => Ok((meta, krate)),
        },
    }
}

/// The checksum of a crate archive: the hexadecimal text of its SHA-256 digest.
pub fn crate_checksum(bytes: &[u8]) -> (res: String)
    ensures
        res@ == hex_text(sha256_digest(bytes@)),
{
    let digest = sha256(bytes);
    hex_encode(digest.as_slice())
}

/// The dependency that the index records for a published one: a dependency renamed in the
/// manifest is recorded under its new name, with its crate's name as `package`.
pub open spec fn dependency_of(d: APICrateDependency) -> Dependency {
    Dependency {
        name: match d.explicit_name {
            Some(renamed) => renamed,
            None => d.name,
        },
        req: d.version_req,
        features: d.features,
        optional: d.optional,
        default_features: d.default_features,
        target: d.target,
        kind: d.kind,
        registry: d.registry,
        package: match d.explicit_name {
            Some(_) => Some(d.name),
            None => None,
        },
    }
}

/// The dependency that the index records for a published one.
pub fn dependency_from_api(dep: APICrateDependency) -> (res: Dependency)
    ensures
        res == dependency_of(dep),
        res.req == dep.version_req,
        res.features == dep.features,
        res.optional == dep.optional,
        res.default_features == dep.default_features,
        res.target == dep.target,
        res.kind == dep.kind,
        res.registry == dep.registry,
        dep.explicit_name matches Some(renamed) ==> res.name == renamed && res.package == Some(dep.name),
        dep.explicit_name is None ==> res.name == dep.name && res.package is None,
{
    let APICrateDependency {
        name,
        version_req,
        features,
        optional,
        default_features,
        target,
        kind,
        registry,
        explicit_name,
    } = dep;
    let (name, package) = match explicit_name {
        Some(renamed) => (renamed, Some(name)),
        None => (name, None),
    };
    Dependency {
        name,
        req: version_req,
        features,
        optional,
        default_features,
        target,
        kind,
        registry,
        package,
    }
}

/// The index records a published dependency as it was sent: from the same registry, with
/// the same requirement, features, flags, target and kind; a dependency renamed in the
/// manifest is recorded under its new name, its crate's name kept as `package`, and any
/// other under its crate's name, without `package`.
pub proof fn law_dependency_kept_as_sent(d: APICrateDependency)
    ensures
        dependency_of(d).registry == d.registry,
        dependency_of(d).req == d.version_req,
        dependency_of(d).features == d.features,
        dependency_of(d).optional == d.optional,
        dependency_of(d).default_features == d.default_features,
        dependency_of(d).target == d.target,
        dependency_of(d).kind == d.kind,
        d.explicit_name matches Some(renamed) ==> dependency_of(d).name == renamed
            && dependency_of(d).package == Some(d.name),
        d.explicit_name is None ==> dependency_of(d).name == d.name && dependency_of(d).package is None,
{
}

/// The description of a published crate for the index: its name, version, features and
/// native library as sent, its dependencies as the index records them, the checksum of its
/// archive, and not yanked.
pub fn crate_description(
    name: String,
    vers: Version,
    deps: Vec<APICrateDependency>,
    features: HashMap<String, Vec<String>>,
    links: Option<String>,
    cksum: String,
) -> (res: Crate)
    ensures
        res.name == name,
        res.vers == vers,
        res.deps@ == deps@.map_values(|d: APICrateDependency| dependency_of(d)),
        res.cksum == cksum,
        res.features == features,
        res.yanked == Some(false),
        res.links == links,
{
    let ghost all = deps@;
    let mut pending = deps;
    let mut converted: Vec<Dependency> = Vec::new();
    while pending.len() > 0
        invariant
            all.len() == converted@.len() + pending@.len(),
            forall|j: int| 0 <= j < converted@.len() ==> #[trigger] converted@[j] == dependency_of(all[j]),
            forall|j: int| 0 <= j < pending@.len() ==> #[trigger] pending@[j] == all[converted@.len() + j],
        decreases pending.len(),
    {
        let ghost rest = pending@;
        let dep = pending.remove(0);
        converted.push(dependency_from_api(dep));
        assert forall|j: int| 0 <= j < pending@.len() implies #[trigger] pending@[j] == all[converted@.len() + j] by {
            assert(pending@[j] == rest[j + 1]);
        }
    }
    assert(converted@ =~= all.map_values(|d: APICrateDependency| dependency_of(d)));
    Crate { name, vers, deps: converted, cksum, features, yanked: Some(false), links }
}

/// Whether publishing added a new crate or a new version of a known one.
#[derive(Debug, Clone, Copy, PartialEq, Eq, Structural)]
pub enum PublishOperation {
    /// The crate is new: its publisher becomes its author.
    Adding,
    /// The crate was known: its publisher must be one of its authors.
    Updating,
}

/// The operation that registering a crate row amounts to: one row inserted means a new
/// crate.
pub fn publish_operation(inserted_rows: usize) -> (res: PublishOperation)
    ensures
        res == (if inserted_rows == 1 {
            PublishOperation::Adding
        } else {
            PublishOperation::Updating
        }),
{
    if inserted_rows == 1 {
        PublishOperation::Adding
    } else {
        PublishOperation::Updating
    }
}

/// Refuses a publication of a known crate by someone who is not one of its authors.
pub fn check_owner(owned: bool, krate: String, author: Author) -> (res: Result<(), Error>)
    ensures
        owned ==> res is Ok,
        !owned ==> (res matches Err(Error::AlexError(AlexError::CrateNotOwned(n, a))) && n == krate
            && a == author),
{
    if owned {
        Ok(())
    } else {
        Err(Error::AlexError(AlexError::CrateNotOwned(krate, author)))
    }
}

/// Refuses a version that is not of higher precedence than the latest hosted one, with
/// `VersionTooLow`; gives the published version back otherwise.
pub fn check_published_version(krate: String, latest: Version, published: Version) -> (res: Result<Version, Error>)
    ensures
        version_le(published@, latest@) ==> (res matches Err(
            Error::AlexError(AlexError::VersionTooLow { krate: k, hosted, published: p }),
        ) && k == krate && hosted == latest && p == published),
        !version_le(published@, latest@) ==> res == Ok::<Version, Error>(published),
{
    if published.at_most(&latest) {
        Err(Error::AlexError(AlexError::VersionTooLow { krate, hosted: latest, published }))
    } else {
        Ok(published)
    }
}

/// The word that names an operation in the index's commit message.
pub open spec fn operation_word(op: PublishOperation) -> Seq<char> {
    match op {
        PublishOperation::Adding => "Adding"@,
        PublishOperation::Updating => "Updating"@,
    }
}

/// The message of the index commit of a publication, such as
/// ``Adding crate `foo#1.0.0` ``.
pub fn commit_message(op: PublishOperation, name: &str, vers: &Version) -> (res: String)
    ensures
        res@ == operation_word(op) + " crate `"@ + name@ + "#"@ + version_text(vers@) + "`"@,
{
    let mut res = String::new();
    match op {
        PublishOperation::Adding => push_text(&mut res, "Adding"),
        PublishOperation::Updating => push_text(&mut res, "Updating"),
    }
    push_text(&mut res, " crate `");
    push_text(&mut res, name);
    push_text(&mut res, "#");
    push_text(&mut res, vers.to_text().as_str());
    push_text(&mut res, "`");
    res
}

/// The message of the index commit that un-yanks a version, such as
/// ``Unyanking crate `foo#1.0.0` ``.
pub fn unyank_commit_message(name: &str, vers: &Version) -> (res: String)
    ensures
        res@ == "Unyanking crate `"@ + name@ + "#"@ + version_text(vers@) + "`"@,
{
    let mut res = String::new();
    push_text(&mut res, "Unyanking crate `");
    push_text(&mut res, name);
    push_text(&mut res, "#");
    push_text(&mut res, vers.to_text().as_str());
    push_text(&mut res, "`");
    res
}

/// The path, inside a crate's archive, of its README: `<name>-<version>/README.md`.
pub fn readme_path(name: &str, vers: &Version) -> (res: String)
    ensures
        res@ == path_join(name@ + "-"@ + version_text(vers@), "README.md"@),
{
    let mut base = String::new();
    push_text(&mut base, name);
    push_text(&mut base, "-");
    push_text(&mut base, vers.to_text().as_str());
    join_path(base, "README.md")
}

} // verus!
