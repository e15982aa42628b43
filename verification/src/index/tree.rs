use vstd::prelude::*;

use crate::error::Error;
use crate::index::models::CrateVersion;
use crate::index::path::{compute_record_path, is_layout_name, record_path};
use crate::index::records::{
    add_outcome, alter_records, check_new_record, collect_records, collected, latest_outcome,
    latest_record, match_outcome, match_record, unyank_records, yank_outcome, yank_records,
    all_parsed, has_release, is_first_error_at, is_first_release_at, parsed,
};
use crate::text::{join, push_text, texts, join_texts};
use crate::version::{Version, VersionReq};

verus! {

/// The index tree: a directory where each crate has a file of records, one JSON record per
/// line.
///
/// Reading and writing the files is left to the caller; these methods decide what is read
/// from and written to them.
#[derive(Debug, Clone)]
pub struct Tree {
    path: String,
}

/// The text of a record file whose records have the given JSON texts: one per line.
pub open spec fn record_file_text(lines: Seq<Seq<char>>) -> Seq<char> {
    join(lines, "\n"@) + "\n"@
}

impl Tree {
    /// The root directory of the tree.
    pub closed spec fn spec_path(&self) -> Seq<char> {
        self.path@
    }

    /// The tree rooted at `path`.
    pub fn new(path: String) -> (res: Self)
        ensures
            res.spec_path() == path@,
    {
        Self { path }
    }

    /// The root directory of the tree.
    pub fn path(&self) -> (res: &str)
        ensures
            res@ == self.spec_path(),
    {
        self.path.as_str()
    }

    /// The path of the record file of crate `name`.
    pub fn compute_record_path(&self, name: &str) -> (res: String)
        requires
            is_layout_name(name@),
        ensures
            res@ == record_path(self.spec_path(), name@),
    {
        compute_record_path(self.path.as_str(), name)
    }

    /// The record of the file that matches `req` with the greatest version, from the lines
    /// of the file of crate `name` (`None` for a line that could not be read as a record).
    pub fn match_record(&self, name: &str, lines: Vec<Option<CrateVersion>>, req: &VersionReq) -> (res: Result<CrateVersion, Error>)
        ensures
            match_outcome(name@, lines@, req.spec_text(), res),
    {
        match_record(name, lines, req)
    }

    /// All the records of a file, from its lines.
    pub fn all_records(&self, lines: Vec<Result<CrateVersion, Error>>) -> (res: Result<Vec<CrateVersion>, Error>)
        ensures
            collected(lines@, res),
    {
        collect_records(lines)
    }

    /// The record of a file with the greatest version, from its lines; a file holds at
    /// least one record.
    pub fn latest_record(&self, lines: Vec<Result<CrateVersion, Error>>) -> (res: Result<CrateVersion, Error>)
        requires
            lines.len() > 0,
        ensures
            latest_outcome(lines@, res),
    {
        latest_record(lines)
    }

    /// Decides whether `record` may be appended to its crate's file, given the lines of
    /// that file when it exists; gives the record back when it may.
    pub fn add_record(&self, existing: Option<Vec<Result<CrateVersion, Error>>>, record: CrateVersion) -> (res: Result<CrateVersion, Error>)
        requires
            existing matches Some(lines) ==> lines.len() > 0,
        ensures
            add_outcome(
                match existing {
                    Some(lines) => Some(lines@),
                    None => None,
                },
                record,
                res,
            ),
    {
        check_new_record(existing, record)
    }

    /// Alters the record of version `version` with `func`, from the lines of the file of
    /// crate `name`; gives back the records to write in its place.
    pub fn alter_record<F: FnOnce(CrateVersion) -> CrateVersion>(
        &self,
        name: &str,
        lines: Vec<Result<CrateVersion, Error>>,
        version: &Version,
        func: F,
    ) -> (res: Result<Vec<CrateVersion>, Error>)
        requires
            forall|c: CrateVersion| func.requires((c,)),
        ensures
            !all_parsed(lines@) ==> exists|i: int|
                is_first_error_at(lines@, i) && res == Err::<Vec<CrateVersion>, Error>(lines@[i]->Err_0),
            all_parsed(lines@) && !has_release(parsed(lines@), version@) ==> (res matches Err(e)
                && crate::index::records::is_not_found(e, name@)),
            all_parsed(lines@) && has_release(parsed(lines@), version@) ==> (res matches Ok(v) && exists|i: int| {
                &&& is_first_release_at(parsed(lines@), version@, i)
                &&& v@.len() == lines@.len()
                &&& func.ensures((parsed(lines@)[i],), v@[i])
                &&& forall|j: int| 0 <= j < v@.len() && j != i ==> v@[j] == parsed(lines@)[j]
            }),
    {
        alter_records(name, lines, version, func)
    }

    /// Yanks a crate version; gives back the records to write in the file.
    pub fn yank_record(&self, name: &str, lines: Vec<Result<CrateVersion, Error>>, version: &Version) -> (res: Result<Vec<CrateVersion>, Error>)
        ensures
            yank_outcome(name@, lines@, version@, Some(true), res),
    {
        yank_records(name, lines, version)
    }

    /// Un-yanks a crate version; gives back the records to write in the file.
    pub fn unyank_record(&self, name: &str, lines: Vec<Result<CrateVersion, Error>>, version: &Version) -> (res: Result<Vec<CrateVersion>, Error>)
        ensures
            yank_outcome(name@, lines@, version@, Some(false), res),
    {
        unyank_records(name, lines, version)
    }
}

/// The text of a record file whose records have the given JSON texts: one per line, each
/// line ended by a line break.
pub fn record_file_contents(lines: &Vec<String>) -> (res: String)
    ensures
        res@ == record_file_text(texts(lines@)),
{
    let mut res = join_texts(lines, "\n");
    push_text(&mut res, "\n");
    res
}

} // verus!
