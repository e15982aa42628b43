use vstd::prelude::*;

use crate::error::{AlexError, Error};
use crate::index::models::{with_yanked, CrateVersion};
use crate::version::{
    law_precedence_flips, law_precedence_reflexive, law_precedence_transitive, precedence,
    same_release, semver_req_matches, version_le, version_lt, Precedence, Version, VersionReq,
    VersionView,
};

verus! {

/// `records[i]` is the record that picking the greatest version (as `Iterator::max_by`
/// does) gives: no record has a version of higher precedence, and every later record has
/// a version of lower precedence (of equally great versions, the last one is picked).
pub open spec fn is_latest_at(records: Seq<CrateVersion>, i: int) -> bool {
    &&& 0 <= i < records.len()
    &&& forall|j: int| 0 <= j < records.len() ==> version_le(#[trigger] records[j].vers@, records[i].vers@)
    &&& forall|j: int| i < j < records.len() ==> version_lt(#[trigger] records[j].vers@, records[i].vers@)
}

/// Line `j` of a record file was read as a record whose version the requirement matches.
pub open spec fn selectable(lines: Seq<Option<CrateVersion>>, req: Seq<char>, j: int) -> bool {
    lines[j] is Some && semver_req_matches(req, lines[j]->Some_0.vers@)
}

/// Some line of a record file holds a record that the requirement matches.
pub open spec fn has_match(lines: Seq<Option<CrateVersion>>, req: Seq<char>) -> bool {
    exists|j: int| 0 <= j < lines.len() && selectable(lines, req, j)
}

/// Line `i` holds the record that picking the greatest version among the matching records
/// gives (the last one of equally great versions).
pub open spec fn is_latest_match_at(lines: Seq<Option<CrateVersion>>, req: Seq<char>, i: int) -> bool {
    &&& 0 <= i < lines.len()
    &&& selectable(lines, req, i)
    &&& forall|j: int|
        0 <= j < lines.len() && selectable(lines, req, j) ==> version_le(
            #[trigger] lines[j]->Some_0.vers@,
            lines[i]->Some_0.vers@,
        )
    &&& forall|j: int|
        i < j < lines.len() && selectable(lines, req, j) ==> version_lt(
            #[trigger] lines[j]->Some_0.vers@,
            lines[i]->Some_0.vers@,
        )
}

/// Every line of a record file was read as a record.
pub open spec fn all_parsed(lines: Seq<Result<CrateVersion, Error>>) -> bool {
    forall|j: int| 0 <= j < lines.len() ==> (#[trigger] lines[j]) is Ok
}

/// The records read from the lines of a record file.
pub open spec fn parsed(lines: Seq<Result<CrateVersion, Error>>) -> Seq<CrateVersion> {
    lines.map_values(|r: Result<CrateVersion, Error>| r->Ok_0)
}

/// Line `i` is the first line of a record file that could not be read as a record.
pub open spec fn is_first_error_at(lines: Seq<Result<CrateVersion, Error>>, i: int) -> bool {
    &&& 0 <= i < lines.len()
    &&& lines[i] is Err
    &&& forall|j: int| 0 <= j < i ==> (#[trigger] lines[j]) is Ok
}

/// The outcome of reading all lines: the records, or the error of the first line that
/// could not be read.
pub open spec fn collected(
    lines: Seq<Result<CrateVersion, Error>>,
    res: Result<Vec<CrateVersion>, Error>,
) -> bool {
    match res {
        Ok(v) => all_parsed(lines) && v@ == parsed(lines),
        Err(e) => exists|i: int| is_first_error_at(lines, i) && e == lines[i]->Err_0,
    }
}

/// `records[i]` is the first record of the same release as `version`.
pub open spec fn is_first_release_at(records: Seq<CrateVersion>, version: VersionView, i: int) -> bool {
    &&& 0 <= i < records.len()
    &&& same_release(records[i].vers@, version)
    &&& forall|j: int| 0 <= j < i ==> !same_release(#[trigger] records[j].vers@, version)
}

/// Some record is of the same release as `version`.
pub open spec fn has_release(records: Seq<CrateVersion>, version: VersionView) -> bool {
    exists|j: int| 0 <= j < records.len() && same_release(#[trigger] records[j].vers@, version)
}

/// The versions of the records strictly increase from one record to the next.
pub open spec fn strictly_increasing(records: Seq<CrateVersion>) -> bool {
    forall|j: int, k: int|
        0 <= j < k < records.len() ==> version_lt(#[trigger] records[j].vers@, #[trigger] records[k].vers@)
}

/// The error that says that no crate of the given name was found.
pub open spec fn is_not_found(e: Error, name: Seq<char>) -> bool {
    e matches Error::AlexError(AlexError::CrateNotFound { name: n }) && n@ == name
}

/// What `match_record` gives for the lines of a record file.
pub open spec fn match_outcome(
    name: Seq<char>,
    lines: Seq<Option<CrateVersion>>,
    req: Seq<char>,
    res: Result<CrateVersion, Error>,
) -> bool {
    match res {
        Ok(r) => exists|i: int| is_latest_match_at(lines, req, i) && r == lines[i]->Some_0,
        Err(e) => !has_match(lines, req) && is_not_found(e, name),
    }
}

/// What `latest_record` gives for the lines of a record file.
pub open spec fn latest_outcome(lines: Seq<Result<CrateVersion, Error>>, res: Result<CrateVersion, Error>) -> bool {
    match res {
        Ok(r) => all_parsed(lines) && exists|i: int| is_latest_at(parsed(lines), i) && r == parsed(lines)[i],
        Err(e) => exists|i: int| is_first_error_at(lines, i) && e == lines[i]->Err_0,
    }
}

/// What `check_new_record` gives for a record about to be added to a file that holds
/// `existing` lines (`None` when there is no such file).
pub open spec fn add_outcome(
    existing: Option<Seq<Result<CrateVersion, Error>>>,
    record: CrateVersion,
    res: Result<CrateVersion, Error>,
) -> bool {
    match existing {
        None => res == Ok::<CrateVersion, Error>(record),
        Some(lines) => if !all_parsed(lines) {
            exists|i: int| is_first_error_at(lines, i) && res == Err::<CrateVersion, Error>(lines[i]->Err_0)
        } else {
            exists|i: int| {
                &&& is_latest_at(parsed(lines), i)
                &&& if version_le(record.vers@, parsed(lines)[i].vers@) {
                    res matches Err(Error::AlexError(AlexError::VersionTooLow { krate, hosted, published }))
                        && krate == record.name && hosted == parsed(lines)[i].vers
                        && published == record.vers
                } else {
                    res == Ok::<CrateVersion, Error>(record)
                }
            }
        },
    }
}

/// What setting the yanked flag of a version to `yanked` gives for the lines of a
/// record file: the error of the first unreadable line; else `CrateNotFound` when no
/// record is of that release; else all records, the first one of that release with its
/// flag set.
pub open spec fn yank_outcome(
    name: Seq<char>,
    lines: Seq<Result<CrateVersion, Error>>,
    version: VersionView,
    yanked: Option<bool>,
    res: Result<Vec<CrateVersion>, Error>,
) -> bool {
    &&& !all_parsed(lines) ==> exists|i: int|
        is_first_error_at(lines, i) && res == Err::<Vec<CrateVersion>, Error>(lines[i]->Err_0)
    &&& all_parsed(lines) && !has_release(parsed(lines), version) ==> (res matches Err(e)
        && is_not_found(e, name))
    &&& all_parsed(lines) && has_release(parsed(lines), version) ==> (res matches Ok(v) && exists|i: int|
        is_first_release_at(parsed(lines), version, i) && v@ == parsed(lines).update(
            i,
            with_yanked(parsed(lines)[i], yanked),
        ))
}

/// The index of the record that `Iterator::max_by` on versions picks.
pub fn latest_index(records: &Vec<CrateVersion>) -> (i: usize)
    requires
        records.len() > 0,
    ensures
        is_latest_at(records@, i as int),
{
    let mut best: usize = 0;
    let mut k: usize = 1;
    proof {
        law_precedence_reflexive(records@[0].vers@);
    }
    while k < records.len()
        invariant
            0 < k <= records.len(),
            best < k,
            forall|j: int| 0 <= j < k ==> version_le(#[trigger] records@[j].vers@, records@[best as int].vers@),
            forall|j: int| best < j < k ==> version_lt(#[trigger] records@[j].vers@, records@[best as int].vers@),
        decreases records.len() - k,
    {
        if records[best].vers.at_most(&records[k].vers) {
            proof {
                assert forall|j: int| 0 <= j < k + 1 implies version_le(
                    #[trigger] records@[j].vers@,
                    records@[k as int].vers@,
                ) by {
                    law_precedence_reflexive(records@[j].vers@);
                    law_precedence_transitive(records@[j].vers@, records@[best as int].vers@, records@[k as int].vers@);
                }
            }
            best = k;
        } else {
            proof {
                law_precedence_flips(records@[best as int].vers@, records@[k as int].vers@);
            }
        }
        k = k + 1;
    }
    best
}

/// The index of the line that picking the greatest matching version gives, if any line
/// holds a record that the requirement matches.
pub fn latest_match_index(lines: &Vec<Option<CrateVersion>>, req: &VersionReq) -> (res: Option<usize>)
    ensures
        match res {
            Some(i) => is_latest_match_at(lines@, req.spec_text(), i as int),
            None => !has_match(lines@, req.spec_text()),
        },
{
    let mut best: Option<usize> = None;
    let mut k: usize = 0;
    while k < lines.len()
        invariant
            k <= lines.len(),
            match best {
                Some(b) => {
                    &&& b < k
                    &&& selectable(lines@, req.spec_text(), b as int)
                    &&& forall|j: int|
                        0 <= j < k && selectable(lines@, req.spec_text(), j) ==> version_le(
                            #[trigger] lines@[j]->Some_0.vers@,
                            lines@[b as int]->Some_0.vers@,
                        )
                    &&& forall|j: int|
                        b < j < k && selectable(lines@, req.spec_text(), j) ==> version_lt(
                            #[trigger] lines@[j]->Some_0.vers@,
                            lines@[b as int]->Some_0.vers@,
                        )
                },
                None => forall|j: int| 0 <= j < k ==> !selectable(lines@, req.spec_text(), j),
            },
        decreases lines.len() - k,
    {
        if let Some(candidate) = &lines[k] {
            if req.matches(&candidate.vers) {
                match best {
                    None => {
                        proof {
                            law_precedence_reflexive(candidate.vers@);
                        }
                        best = Some(k);
                    },
                    Some(b) => {
                        let current = lines[b].as_ref().unwrap();
                        if current.vers.at_most(&candidate.vers) {
                            proof {
                                assert forall|j: int|
                                    0 <= j < k + 1 && selectable(lines@, req.spec_text(), j) implies version_le(
                                    #[trigger] lines@[j]->Some_0.vers@,
                                    lines@[k as int]->Some_0.vers@,
                                ) by {
                                    law_precedence_reflexive(lines@[j]->Some_0.vers@);
                                    law_precedence_transitive(
                                        lines@[j]->Some_0.vers@,
                                        lines@[b as int]->Some_0.vers@,
                                        lines@[k as int]->Some_0.vers@,
                                    );
                                }
                            }
                            best = Some(k);
                        } else {
                            proof {
                                law_precedence_flips(lines@[b as int]->Some_0.vers@, candidate.vers@);
                            }
                        }
                    },
                }
            }
        }
        k = k + 1;
    }
    best
}

/// The records read from the lines of a record file, or the error of the first line that
/// could not be read.
pub fn collect_records(lines: Vec<Result<CrateVersion, Error>>) -> (res: Result<Vec<CrateVersion>, Error>)
    ensures
        collected(lines@, res),
{
    let ghost original = lines@;
    let mut pending = lines;
    let mut records: Vec<CrateVersion> = Vec::new();
    while pending.len() > 0
        invariant
            original == lines@,
            original.len() == records@.len() + pending@.len(),
            forall|j: int| 0 <= j < records@.len() ==> (#[trigger] original[j]) is Ok,
            forall|j: int| 0 <= j < records@.len() ==> #[trigger] records@[j] == original[j]->Ok_0,
            forall|j: int| 0 <= j < pending@.len() ==> #[trigger] pending@[j] == original[records@.len() + j],
        decreases pending.len(),
    {
        let ghost done = records@.len();
        let ghost rest = pending@;
        let line = pending.remove(0);
        assert(line == original[done as int]);
        match line {
            Ok(record) => {
                records.push(record);
                assert forall|j: int| 0 <= j < pending@.len() implies #[trigger] pending@[j] == original[records@.len() + j] by {
                    assert(pending@[j] == rest[j + 1]);
                }
            },
            Err(e) => {
                assert(is_first_error_at(original, done as int) && e == original[done as int]->Err_0);
                return Err(e);
            },
        }
    }
    assert(records@ =~= parsed(original));
    Ok(records)
}

/// The index of the first record of the same release as `version`, if any.
pub fn find_release(records: &Vec<CrateVersion>, version: &Version) -> (res: Option<usize>)
    ensures
        match res {
            Some(i) => is_first_release_at(records@, version@, i as int),
            None => !has_release(records@, version@),
        },
{
    let mut k: usize = 0;
    while k < records.len()
        invariant
            k <= records.len(),
            forall|j: int| 0 <= j < k ==> !same_release(#[trigger] records@[j].vers@, version@),
        decreases records.len() - k,
    {
        if records[k].vers.same_as(version) {
            return Some(k);
        }
        k = k + 1;
    }
    None
}

/// The record of `lines` that matches `req` with the greatest version (the last one of
/// equally great versions), or `CrateNotFound` when no line holds a record that matches.
/// Lines that could not be read as records are passed over.
pub fn match_record(name: &str, lines: Vec<Option<CrateVersion>>, req: &VersionReq) -> (res: Result<
    CrateVersion,
    Error,
>)
    ensures
        match_outcome(name@, lines@, req.spec_text(), res),
{
    match latest_match_index(&lines, req) {
        Some(i) => {
            let ghost original = lines@;
            let mut lines = lines;
            let found = lines.swap_remove(i);
            assert(found == original[i as int]);
            Ok(found.unwrap())
        },
        None => Err(Error::AlexError(AlexError::CrateNotFound { name: name.to_owned() })),
    }
}

/// The record with the greatest version (the last one of equally great versions), or the
/// error of the first line that could not be read.
pub fn latest_record(lines: Vec<Result<CrateVersion, Error>>) -> (res: Result<CrateVersion, Error>)
    requires
        lines.len() > 0,
    ensures
        latest_outcome(lines@, res),
{
    let records = collect_records(lines);
    match records {
        Ok(records) => {
            let i = latest_index(&records);
            let ghost all = records@;
            let mut records = records;
            let found = records.swap_remove(i);
            assert(found == all[i as int]);
            Ok(found)
        },
        Err(e) => Err(e),
    }
}

/// Checks a record about to be added to a crate's record file: when the file exists
/// (`existing` holds its lines), its records must all be readable and the new version
/// must be of higher precedence than the greatest one there, else `VersionTooLow`.
/// Gives the record back when it may be added.
pub fn check_new_record(existing: Option<Vec<Result<CrateVersion, Error>>>, record: CrateVersion) -> (res: Result<CrateVersion, Error>)
    requires
        existing matches Some(lines) ==> lines.len() > 0,
    ensures
        add_outcome(
            match existing {
                Some(lines) => Some(lines@),
                None => None,
            },
            record,
            res,
        ),
{
    match existing {
        None => Ok(record),
        Some(lines) => {
            let ghost original = lines@;
            match latest_record(lines) {
                Err(e) => {
                    proof {
                        let i = choose|i: int| is_first_error_at(original, i) && e == original[i]->Err_0;
                        assert(!all_parsed(original)) by {
                            assert(original[i] is Err);
                        }
                    }
                    Err(e)
                },
                Ok(latest) => {
                    if record.vers.at_most(&latest.vers) {
                        Err(Error::AlexError(AlexError::VersionTooLow {
                            krate: record.name,
                            hosted: latest.vers,
                            published: record.vers,
                        }))
                    } else {
                        Ok(record)
                    }
                },
            }
        },
    }
}

/// Alters the first record of the same release as `version` with `func`, or fails with
/// `CrateNotFound` when there is none; fails with the error of the first line that could
/// not be read. Gives back all records, the altered one in its place.
pub fn alter_records<F: FnOnce(CrateVersion) -> CrateVersion>(
    name: &str,
    lines: Vec<Result<CrateVersion, Error>>,
    version: &Version,
    func: F,
) -> (res: Result<Vec<CrateVersion>, Error>)
    requires
        forall|c: CrateVersion| func.requires((c,)),
    ensures
        !all_parsed(lines@) ==> exists|i: int|
            is_first_error_at(lines@, i) && res == Err::<Vec<CrateVersion>, Error>(lines@[i]->Err_0),
        all_parsed(lines@) && !has_release(parsed(lines@), version@) ==> (res matches Err(e) && is_not_found(e, name@)),
        all_parsed(lines@) && has_release(parsed(lines@), version@) ==> (res matches Ok(v) && exists|i: int| {
            &&& is_first_release_at(parsed(lines@), version@, i)
            &&& v@.len() == lines@.len()
            &&& func.ensures((parsed(lines@)[i],), v@[i])
            &&& forall|j: int| 0 <= j < v@.len() && j != i ==> v@[j] == parsed(lines@)[j]
        }),
{
    let ghost original = lines@;
    let records = collect_records(lines);
    match records {
        Err(e) => {
            proof {
                let i = choose|i: int| is_first_error_at(original, i) && e == original[i]->Err_0;
                assert(original[i] is Err);
            }
            Err(e)
        },
        Ok(records) => match find_release(&records, version) {
            None => Err(Error::AlexError(AlexError::CrateNotFound { name: name.to_owned() })),
            Some(i) => {
                let ghost before = records@;
                let mut records = records;
                let found = records.remove(i);
                let altered = func(found);
                records.insert(i, altered);
                assert forall|j: int| 0 <= j < records@.len() && j != i implies records@[j] == before[j] by {
                    if j > i {
                        assert(records@[j] == before.remove(i as int)[j - 1]);
                    }
                }
                Ok(records)
            },
        },
    }
}

/// Yanks the first record of the same release as `version` (see `alter_records`).
pub fn yank_records(name: &str, lines: Vec<Result<CrateVersion, Error>>, version: &Version) -> (res: Result<Vec<CrateVersion>, Error>)
    ensures
        yank_outcome(name@, lines@, version@, Some(true), res),
{
    let res = alter_records(name, lines, version, |c: CrateVersion| -> (r: CrateVersion)
        ensures
            r == with_yanked(c, Some(true)),
        {
            let mut c = c;
            c.yank();
            c
        });
    proof {
        if all_parsed(lines@) && has_release(parsed(lines@), version@) {
            let v = res->Ok_0;
            let i = choose|i: int| {
                &&& is_first_release_at(parsed(lines@), version@, i)
                &&& v@.len() == lines@.len()
                &&& forall|j: int| 0 <= j < v@.len() && j != i ==> v@[j] == parsed(lines@)[j]
                &&& v@[i] == with_yanked(parsed(lines@)[i], Some(true))
            };
            assert(v@ =~= parsed(lines@).update(i, with_yanked(parsed(lines@)[i], Some(true))));
        }
    }
    res
}

/// Un-yanks the first record of the same release as `version` (see `alter_records`).
pub fn unyank_records(name: &str, lines: Vec<Result<CrateVersion, Error>>, version: &Version) -> (res: Result<Vec<CrateVersion>, Error>)
    ensures
        yank_outcome(name@, lines@, version@, Some(false), res),
{
    let res = alter_records(name, lines, version, |c: CrateVersion| -> (r: CrateVersion)
        ensures
            r == with_yanked(c, Some(false)),
        {
            let mut c = c;
            c.unyank();
            c
        });
    proof {
        if all_parsed(lines@) && has_release(parsed(lines@), version@) {
            let v = res->Ok_0;
            let i = choose|i: int| {
                &&& is_first_release_at(parsed(lines@), version@, i)
                &&& v@.len() == lines@.len()
                &&& forall|j: int| 0 <= j < v@.len() && j != i ==> v@[j] == parsed(lines@)[j]
                &&& v@[i] == with_yanked(parsed(lines@)[i], Some(false))
            };
            assert(v@ =~= parsed(lines@).update(i, with_yanked(parsed(lines@)[i], Some(false))));
        }
    }
    res
}

/// Only one record is the one that picking the greatest version gives.
pub proof fn law_latest_is_unique(records: Seq<CrateVersion>, i: int, k: int)
    requires
        is_latest_at(records, i),
        is_latest_at(records, k),
    ensures
        i == k,
{
    if i < k {
        law_precedence_flips(records[k].vers@, records[i].vers@);
        assert(version_le(records[i].vers@, records[k].vers@));
        assert(version_lt(records[k].vers@, records[i].vers@));
    } else if k < i {
        law_precedence_flips(records[i].vers@, records[k].vers@);
        assert(version_le(records[k].vers@, records[i].vers@));
        assert(version_lt(records[i].vers@, records[k].vers@));
    }
}

/// A record that `check_new_record` lets through (its version above the greatest one
/// in the file), once appended to the file, is the record that reading the latest
/// version gives back.
pub proof fn law_added_record_is_latest(records: Seq<CrateVersion>, i: int, record: CrateVersion)
    requires
        is_latest_at(records, i),
        !version_le(record.vers@, records[i].vers@),
    ensures
        is_latest_at(records.push(record), records.len() as int),
{
    let all = records.push(record);
    law_precedence_flips(record.vers@, records[i].vers@);
    law_precedence_reflexive(record.vers@);
    assert forall|j: int| 0 <= j < all.len() implies version_le(#[trigger] all[j].vers@, all[records.len() as int].vers@) by {
        if j < records.len() {
            assert(all[j] == records[j]);
            law_precedence_transitive(records[j].vers@, records[i].vers@, record.vers@);
        }
    }
}

/// In a file whose versions strictly increase, the latest record is the last one; and
/// appending a record that `check_new_record` lets through keeps the versions strictly
/// increasing.
pub proof fn law_added_record_keeps_order(records: Seq<CrateVersion>, record: CrateVersion)
    requires
        records.len() > 0,
        strictly_increasing(records),
    ensures
        is_latest_at(records, records.len() - 1),
        !version_le(record.vers@, records[records.len() - 1].vers@) ==> strictly_increasing(
            records.push(record),
        ),
{
    let last = records.len() - 1;
    law_precedence_reflexive(records[last].vers@);
    assert forall|j: int| 0 <= j < records.len() implies version_le(#[trigger] records[j].vers@, records[last].vers@) by {
        if j < last {
            assert(version_lt(records[j].vers@, records[last].vers@));
        }
    }
    if !version_le(record.vers@, records[last].vers@) {
        law_precedence_flips(record.vers@, records[last].vers@);
        let all = records.push(record);
        assert forall|j: int, k: int| 0 <= j < k < all.len() implies version_lt(#[trigger] all[j].vers@, #[trigger] all[k].vers@) by {
            if k == records.len() {
                assert(all[j] == records[j]);
                law_precedence_transitive(records[j].vers@, records[last].vers@, record.vers@);
            } else {
                assert(all[j] == records[j] && all[k] == records[k]);
            }
        }
    }
}

/// Yanking or un-yanking a record changes nothing of which record is the latest.
pub proof fn law_yanking_keeps_latest(records: Seq<CrateVersion>, k: int, i: int, yanked: Option<bool>)
    requires
        is_latest_at(records, k),
        0 <= i < records.len(),
    ensures
        is_latest_at(records.update(i, with_yanked(records[i], yanked)), k),
{
    let after = records.update(i, with_yanked(records[i], yanked));
    assert forall|j: int| 0 <= j < after.len() implies after[j].vers@ == records[j].vers@ by {}
}

/// Un-yanking a version after yanking it finds the same record, and leaves the records as
/// un-yanking it alone would have.
pub proof fn law_unyank_after_yank(records: Seq<CrateVersion>, version: VersionView, i: int)
    requires
        is_first_release_at(records, version, i),
    ensures
        is_first_release_at(records.update(i, with_yanked(records[i], Some(true))), version, i),
        ({
            let yanked = records.update(i, with_yanked(records[i], Some(true)));
            yanked.update(i, with_yanked(yanked[i], Some(false)))
        }) == records.update(i, with_yanked(records[i], Some(false))),
        records[i].yanked == Some(false) ==> ({
            let yanked = records.update(i, with_yanked(records[i], Some(true)));
            yanked.update(i, with_yanked(yanked[i], Some(false)))
        }) == records,
{
    let yanked = records.update(i, with_yanked(records[i], Some(true)));
    assert forall|j: int| 0 <= j < i implies !same_release(#[trigger] yanked[j].vers@, version) by {
        assert(yanked[j] == records[j]);
    }
    assert(yanked.update(i, with_yanked(yanked[i], Some(false))) =~= records.update(i, with_yanked(records[i], Some(false))));
    if records[i].yanked == Some(false) {
        assert(with_yanked(records[i], Some(false)) == records[i]);
        assert(records.update(i, with_yanked(records[i], Some(false))) =~= records);
    }
}

} // verus!
