use vstd::prelude::*;

use crate::error::{AlexError, Error};
use crate::index::models::{with_yanked, CrateVersion};
use crate::index::records::{all_parsed, collect_records, collected, parsed, strictly_increasing};
use crate::version::{
    law_precedence_equal_iff_same_release, law_precedence_flips, law_precedence_transitive,
    precedence, same_release, version_le, version_lt, Precedence, Version, VersionView,
};

verus! {

/// The records of a file kept as a map ordered by version: inserting a record whose
/// version is of the same precedence as a kept one replaces that one's record in place;
/// any other record goes where its version falls in the order.
pub open spec fn insert_sorted(records: Seq<CrateVersion>, r: CrateVersion) -> Seq<CrateVersion>
    decreases records.len(),
{
    if records.len() == 0 {
        seq![r]
    } else if version_lt(r.vers@, records[0].vers@) {
        seq![r] + records
    } else if precedence(r.vers@, records[0].vers@) == Precedence::Equal {
        seq![r] + records.drop_first()
    } else {
        seq![records[0]] + insert_sorted(records.drop_first(), r)
    }
}

/// The records kept after inserting each record of `records` in turn into an empty map.
pub open spec fn insert_all(records: Seq<CrateVersion>) -> Seq<CrateVersion>
    decreases records.len(),
{
    if records.len() == 0 {
        Seq::empty()
    } else {
        insert_sorted(insert_all(records.drop_last()), records.last())
    }
}

/// What setting the yanked flag of version `version` to `yanked` does to the records
/// of a file: the first record of that release gets the flag; without one, nothing
/// changes and the error is a `CrateNotFound` that names no crate.
pub open spec fn set_yanked_outcome(
    before: Seq<CrateVersion>,
    after: Seq<CrateVersion>,
    version: VersionView,
    yanked: Option<bool>,
    res: Result<(), Error>,
) -> bool {
    match res {
        Ok(()) => exists|i: int|
            0 <= i < before.len() && same_release(before[i].vers@, version) && after == before.update(
                i,
                with_yanked(before[i], yanked),
            ),
        Err(e) => {
            &&& forall|i: int| 0 <= i < before.len() ==> !same_release(#[trigger] before[i].vers@, version)
            &&& after == before
            &&& e matches Error::AlexError(AlexError::CrateNotFound { name })
            &&& name@ == "populate me properly"@
        },
    }
}

/// A file of records, kept as a map from version to record.
pub struct File {
    path: String,
    records: Vec<CrateVersion>,
}

proof fn lemma_increasing_tail(records: Seq<CrateVersion>)
    requires
        strictly_increasing(records),
        records.len() > 0,
    ensures
        strictly_increasing(records.drop_first()),
{
    let t = records.drop_first();
    assert forall|j: int, k: int| 0 <= j < k < t.len() implies version_lt(#[trigger] t[j].vers@, #[trigger] t[k].vers@) by {
        assert(t[j] == records[j + 1] && t[k] == records[k + 1]);
    }
}

/// Inserting into records of strictly increasing versions keeps them strictly increasing,
/// and is what splicing the record in at the first version not below it gives.
proof fn lemma_insert_sorted(records: Seq<CrateVersion>, r: CrateVersion, p: int)
    requires
        strictly_increasing(records),
        0 <= p <= records.len(),
        forall|j: int| 0 <= j < p ==> version_lt(#[trigger] records[j].vers@, r.vers@),
        p < records.len() ==> !version_lt(records[p].vers@, r.vers@),
    ensures
        strictly_increasing(insert_sorted(records, r)),
        p < records.len() && precedence(r.vers@, records[p].vers@) == Precedence::Equal ==> insert_sorted(records, r)
            == records.update(p, r),
        !(p < records.len() && precedence(r.vers@, records[p].vers@) == Precedence::Equal) ==> insert_sorted(records, r)
            == records.insert(p, r),
    decreases records.len(),
{
    let res = insert_sorted(records, r);
    if records.len() == 0 {
        assert(res =~= records.insert(p, r));
    } else if p == 0 {
        law_precedence_flips(r.vers@, records[0].vers@);
        if version_lt(r.vers@, records[0].vers@) {
            assert(res =~= records.insert(0, r));
            assert forall|j: int, k: int| 0 <= j < k < res.len() implies version_lt(#[trigger] res[j].vers@, #[trigger] res[k].vers@) by {
                if j == 0 {
                    assert(res[k] == records[k - 1]);
                    if k > 1 {
                        law_precedence_transitive(r.vers@, records[0].vers@, records[k - 1].vers@);
                    }
                } else {
                    assert(res[j] == records[j - 1] && res[k] == records[k - 1]);
                }
            }
        } else {
            assert(precedence(r.vers@, records[0].vers@) == Precedence::Equal);
            assert(res =~= records.update(0, r));
            assert forall|j: int, k: int| 0 <= j < k < res.len() implies version_lt(#[trigger] res[j].vers@, #[trigger] res[k].vers@) by {
                if j == 0 {
                    assert(res[k] == records[k]);
                    assert(version_lt(records[0].vers@, records[k].vers@));
                    law_precedence_equal_iff_same_release(r.vers@, records[0].vers@);
                    law_precedence_transitive(r.vers@, records[0].vers@, records[k].vers@);
                } else {
                    assert(res[j] == records[j] && res[k] == records[k]);
                }
            }
        }
    } else {
        let t = records.drop_first();
        lemma_increasing_tail(records);
        assert forall|j: int| 0 <= j < p - 1 implies version_lt(#[trigger] t[j].vers@, r.vers@) by {
            assert(t[j] == records[j + 1]);
        }
        assert(version_lt(records[0].vers@, r.vers@));
        law_precedence_flips(records[0].vers@, r.vers@);
        lemma_insert_sorted(t, r, p - 1);
        let sub = insert_sorted(t, r);
        assert(res == seq![records[0]] + sub);
        if p < records.len() && precedence(r.vers@, records[p].vers@) == Precedence::Equal {
            assert(t[p - 1] == records[p]);
            assert(res =~= records.update(p, r));
        } else {
            if p < records.len() {
                assert(t[p - 1] == records[p]);
            }
            assert(res =~= records.insert(p, r));
        }
        assert forall|j: int, k: int| 0 <= j < k < res.len() implies version_lt(#[trigger] res[j].vers@, #[trigger] res[k].vers@) by {
            if j == 0 {
                assert(res[k] == sub[k - 1]);
                if k - 1 < p - 1 {
                    assert(sub[k - 1] == t[k - 1]);
                    assert(records[k] == t[k - 1]);
                } else if k - 1 == p - 1 {
                    assert(sub[k - 1] == r);
                } else {
                    if p < records.len() && precedence(r.vers@, records[p].vers@) == Precedence::Equal {
                        assert(sub[k - 1] == t[k - 1]);
                        assert(records[k] == t[k - 1]);
                    } else {
                        assert(sub[k - 1] == t[k - 2]);
                        assert(records[k - 1] == t[k - 2]);
                    }
                }
            } else {
                assert(res[j] == sub[j - 1] && res[k] == sub[k - 1]);
            }
        }
    }
}

/// Reading, as a map keyed by version, a file whose versions strictly increase (as
/// appending only records that `check_new_record` lets through keeps them) gives back its
/// records unchanged, in the same order.
pub proof fn law_open_keeps_increasing_records(records: Seq<CrateVersion>)
    requires
        strictly_increasing(records),
    ensures
        insert_all(records) == records,
    decreases records.len(),
{
    if records.len() > 0 {
        let t = records.drop_last();
        let r = records.last();
        assert forall|j: int, k: int| 0 <= j < k < t.len() implies version_lt(#[trigger] t[j].vers@, #[trigger] t[k].vers@) by {
            assert(t[j] == records[j] && t[k] == records[k]);
        }
        law_open_keeps_increasing_records(t);
        assert forall|j: int| 0 <= j < t.len() implies version_lt(#[trigger] t[j].vers@, r.vers@) by {
            assert(t[j] == records[j]);
        }
        lemma_insert_sorted(t, r, t.len() as int);
        assert(t.insert(t.len() as int, r) =~= records);
    }
}

impl File {
    #[verifier::type_invariant]
    spec fn ordered(self) -> bool {
        strictly_increasing(self.records@)
    }

    /// The records of the file, in the order of their versions.
    pub closed spec fn spec_records(&self) -> Seq<CrateVersion> {
        self.records@
    }

    /// The path of the file.
    pub closed spec fn spec_path(&self) -> Seq<char> {
        self.path@
    }

    /// Inserts a record, as a map keyed by version does.
    fn insert(&mut self, r: CrateVersion)
        ensures
            final(self).spec_records() == insert_sorted(old(self).spec_records(), r),
            final(self).spec_path() == old(self).spec_path(),
    {
        proof {
            use_type_invariant(&*self);
        }
        let mut records: Vec<CrateVersion> = Vec::new();
        std::mem::swap(&mut records, &mut self.records);
        let mut p: usize = 0;
        while p < records.len()
            invariant
                p <= records.len(),
                strictly_increasing(records@),
                forall|j: int| 0 <= j < p ==> version_lt(#[trigger] records@[j].vers@, r.vers@),
            ensures
                p <= records.len(),
                strictly_increasing(records@),
                forall|j: int| 0 <= j < p ==> version_lt(#[trigger] records@[j].vers@, r.vers@),
                p < records.len() ==> !version_lt(records@[p as int].vers@, r.vers@),
            decreases records.len() - p,
        {
            if records[p].vers.compare(&r.vers) != Precedence::Less {
                assert(!version_lt(records@[p as int].vers@, r.vers@));
                break;
            }
            p = p + 1;
        }
        proof {
            lemma_insert_sorted(records@, r, p as int);
        }
        let ghost before = records@;
        if p < records.len() && r.vers.compare(&records[p].vers) == Precedence::Equal {
            let _ = records.remove(p);
            records.insert(p, r);
            assert(records@ =~= before.update(p as int, r));
        } else {
            records.insert(p, r);
        }
        assert(records@ == insert_sorted(before, r));
        self.records = records;
    }

    /// Reads a file from its lines: each record is inserted in turn, so that of records of
    /// equal version the last one is kept; fails with the error of the first line that
    /// could not be read.
    pub fn open(path: String, lines: Vec<Result<CrateVersion, Error>>) -> (res: Result<File, Error>)
        ensures
            match res {
                Ok(f) => all_parsed(lines@) && f.spec_path() == path@ && f.spec_records()
                    == insert_all(parsed(lines@)),
                Err(e) => collected(lines@, Err::<Vec<CrateVersion>, Error>(e)),
            },
    {
        match collect_records(lines) {
            Err(e) => Err(e),
            Ok(records) => {
                let ghost all = records@;
                let mut file = File { path, records: Vec::new() };
                let mut pending = records;
                let mut done: usize = 0;
                assert(all.len() == pending.len());
                assert(file.records@ =~= insert_all(all.take(0)));
                while pending.len() > 0
                    invariant
                        all.len() == done + pending@.len(),
                        all.len() <= usize::MAX,
                        forall|j: int| 0 <= j < pending@.len() ==> #[trigger] pending@[j] == all[done + j],
                        file.spec_records() == insert_all(all.take(done as int)),
                        file.spec_path() == path@,
                    decreases pending.len(),
                {
                    let ghost rest = pending@;
                    let r = pending.remove(0);
                    assert(r == all[done as int]);
                    assert(all.take(done + 1).drop_last() =~= all.take(done as int));
                    file.insert(r);
                    done = done + 1;
                    assert forall|j: int| 0 <= j < pending@.len() implies #[trigger] pending@[j] == all[done + j] by {
                        assert(pending@[j] == rest[j + 1]);
                    }
                }
                assert(all.take(all.len() as int) =~= all);
                Ok(file)
            },
        }
    }
    /// The path of the file.
    pub fn path(&self) -> (res: &str)
        ensures
            res@ == self.spec_path(),
    {
        self.path.as_str()
    }

    /// The records of the file, in the order of their versions.
    pub fn records(&self) -> (res: &Vec<CrateVersion>)
        ensures
            res@ == self.spec_records(),
            strictly_increasing(res@),
    {
        proof {
            use_type_invariant(self);
        }
        &self.records
    }

    /// Sets the yanked flag of the record of version `version` (of the same precedence),
    /// or fails with `CrateNotFound` when there is none.
    fn set_yanked(&mut self, version: &Version, yanked: bool) -> (res: Result<(), Error>)
        ensures
            final(self).spec_path() == old(self).spec_path(),
            set_yanked_outcome(old(self).spec_records(), final(self).spec_records(), version@, Some(yanked), res),
    {
        proof {
            use_type_invariant(&*self);
        }
        let mut records: Vec<CrateVersion> = Vec::new();
        std::mem::swap(&mut records, &mut self.records);
        let ghost before = records@;
        let mut k: usize = 0;
        while k < records.len()
            invariant
                k <= records.len(),
                records@ == before,
                strictly_increasing(before),
                before == old(self).spec_records(),
                self.spec_path() == old(self).spec_path(),
                forall|j: int| 0 <= j < k ==> !same_release(#[trigger] before[j].vers@, version@),
            decreases records.len() - k,
        {
            if records[k].vers.compare(version) == Precedence::Equal {
                proof {
                    law_precedence_equal_iff_same_release(records@[k as int].vers@, version@);
                }
                let mut found = records.remove(k);
                if yanked {
                    found.yank();
                } else {
                    found.unyank();
                }
                records.insert(k, found);
                assert(records@ =~= before.update(k as int, with_yanked(before[k as int], Some(yanked))));
                assert forall|j: int, m: int| 0 <= j < m < records@.len() implies version_lt(#[trigger] records@[j].vers@, #[trigger] records@[m].vers@) by {
                    assert(records@[j].vers == before[j].vers && records@[m].vers == before[m].vers);
                }
                self.records = records;
                return Ok(());
            }
            proof {
                law_precedence_equal_iff_same_release(records@[k as int].vers@, version@);
            }
            k = k + 1;
        }
        self.records = records;
        Err(Error::AlexError(AlexError::CrateNotFound { name: "populate me properly".to_owned() }))
    }

    /// Marks the record of version `version` as yanked; the file is then to be written.
    pub fn yank(&mut self, version: &Version) -> (res: Result<(), Error>)
        ensures
            final(self).spec_path() == old(self).spec_path(),
            set_yanked_outcome(old(self).spec_records(), final(self).spec_records(), version@, Some(true), res),
    {
        self.set_yanked(version, true)
    }

    /// Marks the record of version `version` as not yanked; the file is then to be written.
    pub fn unyank(&mut self, version: &Version) -> (res: Result<(), Error>)
        ensures
            final(self).spec_path() == old(self).spec_path(),
            set_yanked_outcome(old(self).spec_records(), final(self).spec_records(), version@, Some(false), res),
    {
        self.set_yanked(version, false)
    }
}

} // verus!
