//! Semantic versions and version requirements, as the registry's index holds them.
//!
//! The order, the equality, the text and the matching of versions are those of the
//! `semver` crate, which is called for each of them.
use vstd::prelude::*;

use crate::text::decimal;
use semver::Version as SemverVersion;

verus! {

/// The three outcomes of comparing two values.
#[derive(Debug, Clone, Copy, PartialEq, Eq, Structural)]
pub enum Precedence {
    Less,
    Equal,
    Greater,
}

/// What an identifier of a version is, mathematically.
pub ghost enum IdentifierView {
    Numeric(u64),
    AlphaNumeric(Seq<char>),
}

/// An identifier in the pre-release or build metadata of a version.
#[derive(Debug)]
pub enum Identifier {
    /// An identifier that's solely numbers.
    Numeric(u64),
    /// An identifier with letters and numbers.
    AlphaNumeric(String),
}

impl View for Identifier {
    type V = IdentifierView;

    open spec fn view(&self) -> IdentifierView {
        match self {
            Identifier::Numeric(n) => IdentifierView::Numeric(*n),
            Identifier::AlphaNumeric(s) => IdentifierView::AlphaNumeric(s@),
        }
    }
}

/// What a version is, mathematically.
pub ghost struct VersionView {
    pub major: u64,
    pub minor: u64,
    pub patch: u64,
    pub pre: Seq<IdentifierView>,
    pub build: Seq<IdentifierView>,
}

/// A version number conforming to the semantic versioning scheme.
#[derive(Debug)]
pub struct Version {
    /// The major version, to be incremented on incompatible changes.
    pub major: u64,
    /// The minor version, to be incremented when functionality is added compatibly.
    pub minor: u64,
    /// The patch version, to be incremented on compatible bug fixes.
    pub patch: u64,
    /// The pre-release identifiers, if any.
    pub pre: Vec<Identifier>,
    /// The build metadata, ignored when versions are compared.
    pub build: Vec<Identifier>,
}

pub open spec fn identifiers_view(ids: Seq<Identifier>) -> Seq<IdentifierView> {
    ids.map_values(|i: Identifier| i@)
}

impl View for Version {
    type V = VersionView;

    open spec fn view(&self) -> VersionView {
        VersionView {
            major: self.major,
            minor: self.minor,
            patch: self.patch,
            pre: identifiers_view(self.pre@),
            build: identifiers_view(self.build@),
        }
    }
}

/// Compares two integers.
pub open spec fn compare_int(a: int, b: int) -> Precedence {
    if a < b {
        Precedence::Less
    } else if a == b {
        Precedence::Equal
    } else {
        Precedence::Greater
    }
}

/// Compares two texts character by character, a proper prefix coming first.
///
/// This is the order of `String`: its bytes in UTF-8 compare as their characters do.
pub open spec fn compare_text(a: Seq<char>, b: Seq<char>) -> Precedence
    decreases a.len(),
{
    if a.len() == 0 {
        if b.len() == 0 {
            Precedence::Equal
        } else {
            Precedence::Less
        }
    } else if b.len() == 0 {
        Precedence::Greater
    } else if a[0] == b[0] {
        compare_text(a.drop_first(), b.drop_first())
    } else {
        compare_int(a[0] as int, b[0] as int)
    }
}

/// Compares two identifiers: numbers among themselves, texts among themselves, and
/// every number before every text.
pub open spec fn compare_identifier(a: IdentifierView, b: IdentifierView) -> Precedence {
    match (a, b) {
        (IdentifierView::Numeric(x), IdentifierView::Numeric(y)) => compare_int(x as int, y as int),
        (IdentifierView::Numeric(_), IdentifierView::AlphaNumeric(_)) => Precedence::Less,
        (IdentifierView::AlphaNumeric(_), IdentifierView::Numeric(_)) => Precedence::Greater,
        (IdentifierView::AlphaNumeric(s), IdentifierView::AlphaNumeric(t)) => compare_text(s, t),
    }
}

/// Compares two lists of identifiers one identifier after another, a proper prefix first.
pub open spec fn compare_identifiers(a: Seq<IdentifierView>, b: Seq<IdentifierView>) -> Precedence
    decreases a.len(),
{
    if a.len() == 0 {
        if b.len() == 0 {
            Precedence::Equal
        } else {
            Precedence::Less
        }
    } else if b.len() == 0 {
        Precedence::Greater
    } else if compare_identifier(a[0], b[0]) == Precedence::Equal {
        compare_identifiers(a.drop_first(), b.drop_first())
    } else {
        compare_identifier(a[0], b[0])
    }
}

/// The precedence of two versions: major, minor and patch numbers first; then a version
/// without pre-release identifiers comes after one with some; then the pre-release
/// identifiers. Build metadata plays no part.
pub open spec fn precedence(a: VersionView, b: VersionView) -> Precedence {
    if a.major != b.major {
        compare_int(a.major as int, b.major as int)
    } else if a.minor != b.minor {
        compare_int(a.minor as int, b.minor as int)
    } else if a.patch != b.patch {
        compare_int(a.patch as int, b.patch as int)
    } else if a.pre.len() == 0 && b.pre.len() == 0 {
        Precedence::Equal
    } else if a.pre.len() == 0 {
        Precedence::Greater
    } else if b.pre.len() == 0 {
        Precedence::Less
    } else {
        compare_identifiers(a.pre, b.pre)
    }
}

/// Two versions are the same release when all but their build metadata agree.
pub open spec fn same_release(a: VersionView, b: VersionView) -> bool {
    a.major == b.major && a.minor == b.minor && a.patch == b.patch && a.pre == b.pre
}

/// `a` comes strictly before `b`.
pub open spec fn version_lt(a: VersionView, b: VersionView) -> bool {
    precedence(a, b) == Precedence::Less
}

/// `a` comes before `b` or is of the same precedence.
pub open spec fn version_le(a: VersionView, b: VersionView) -> bool {
    precedence(a, b) != Precedence::Greater
}

/// The outcome of comparing the other way round.
pub open spec fn flip(p: Precedence) -> Precedence {
    match p {
        Precedence::Less => Precedence::Greater,
        Precedence::Equal => Precedence::Equal,
        Precedence::Greater => Precedence::Less,
    }
}

proof fn lemma_same_first_and_rest<T>(a: Seq<T>, b: Seq<T>)
    requires
        a.len() > 0,
        b.len() > 0,
        a[0] == b[0],
        a.drop_first() == b.drop_first(),
    ensures
        a == b,
{
    assert(a.len() == a.drop_first().len() + 1);
    assert(b.len() == b.drop_first().len() + 1);
    assert forall|i: int| 0 <= i < a.len() implies a[i] == b[i] by {
        if i > 0 {
            assert(a[i] == a.drop_first()[i - 1]);
            assert(b[i] == b.drop_first()[i - 1]);
        }
    }
    assert(a =~= b);
}

proof fn lemma_text_order(a: Seq<char>, b: Seq<char>, c: Seq<char>)
    ensures
        compare_text(b, a) == flip(compare_text(a, b)),
        compare_text(a, b) == Precedence::Equal <==> a == b,
        compare_text(a, b) == Precedence::Less && compare_text(b, c) == Precedence::Less
            ==> compare_text(a, c) == Precedence::Less,
    decreases a.len(),
{
    if a.len() > 0 && b.len() > 0 {
        let c2 = if c.len() > 0 { c.drop_first() } else { c };
        lemma_text_order(a.drop_first(), b.drop_first(), c2);
        if a[0] == b[0] && a.drop_first() == b.drop_first() {
            lemma_same_first_and_rest(a, b);
        }
    }
    if a.len() == 0 && b.len() == 0 {
        assert(a =~= b);
    }
}

proof fn lemma_identifier_order(a: IdentifierView, b: IdentifierView, c: IdentifierView)
    ensures
        compare_identifier(b, a) == flip(compare_identifier(a, b)),
        compare_identifier(a, b) == Precedence::Equal <==> a == b,
        compare_identifier(a, b) == Precedence::Less && compare_identifier(b, c)
            == Precedence::Less ==> compare_identifier(a, c) == Precedence::Less,
{
    match (a, b, c) {
        (
            IdentifierView::AlphaNumeric(s),
            IdentifierView::AlphaNumeric(t),
            IdentifierView::AlphaNumeric(u),
        ) => {
            lemma_text_order(s, t, u);
        },
        (IdentifierView::AlphaNumeric(s), IdentifierView::AlphaNumeric(t), _) => {
            lemma_text_order(s, t, t);
        },
        _ => {},
    }
}

proof fn lemma_identifiers_order(a: Seq<IdentifierView>, b: Seq<IdentifierView>, c: Seq<IdentifierView>)
    ensures
        compare_identifiers(b, a) == flip(compare_identifiers(a, b)),
        compare_identifiers(a, b) == Precedence::Equal <==> a == b,
        compare_identifiers(a, b) == Precedence::Less && compare_identifiers(b, c)
            == Precedence::Less ==> compare_identifiers(a, c) == Precedence::Less,
    decreases a.len(),
{
    if a.len() > 0 && b.len() > 0 {
        let c2 = if c.len() > 0 { c.drop_first() } else { c };
        lemma_identifiers_order(a.drop_first(), b.drop_first(), c2);
        if c.len() > 0 {
            lemma_identifier_order(a[0], b[0], c[0]);
            lemma_identifier_order(b[0], c[0], c[0]);
        } else {
            lemma_identifier_order(a[0], b[0], b[0]);
        }
        if a[0] == b[0] && a.drop_first() == b.drop_first() {
            lemma_same_first_and_rest(a, b);
        }
    }
    if a.len() == 0 && b.len() == 0 {
        assert(a =~= b);
    }
}

/// Comparing two versions the other way round gives the opposite outcome.
pub proof fn law_precedence_flips(a: VersionView, b: VersionView)
    ensures
        precedence(b, a) == flip(precedence(a, b)),
{
    lemma_identifiers_order(a.pre, b.pre, b.pre);
}

/// Two versions are of equal precedence exactly when they are the same release.
pub proof fn law_precedence_equal_iff_same_release(a: VersionView, b: VersionView)
    ensures
        precedence(a, b) == Precedence::Equal <==> same_release(a, b),
{
    lemma_identifiers_order(a.pre, b.pre, b.pre);
    if a.pre.len() == 0 && b.pre.len() == 0 {
        assert(a.pre =~= b.pre);
    }
}

/// Precedence orders versions transitively.
pub proof fn law_precedence_transitive(a: VersionView, b: VersionView, c: VersionView)
    ensures
        version_le(a, b) && version_le(b, c) ==> version_le(a, c),
        version_lt(a, b) && version_le(b, c) ==> version_lt(a, c),
        version_le(a, b) && version_lt(b, c) ==> version_lt(a, c),
{
    lemma_identifiers_order(a.pre, b.pre, c.pre);
    lemma_identifiers_order(b.pre, c.pre, c.pre);
    lemma_identifiers_order(a.pre, c.pre, c.pre);
    law_precedence_equal_iff_same_release(a, b);
    law_precedence_equal_iff_same_release(b, c);
    law_precedence_equal_iff_same_release(a, c);
}

/// Every version is of equal precedence to itself.
pub proof fn law_precedence_reflexive(a: VersionView)
    ensures
        precedence(a, a) == Precedence::Equal,
{
    law_precedence_equal_iff_same_release(a, a);
}

/// Any two versions are ordered one way or the other.
pub proof fn law_precedence_total(a: VersionView, b: VersionView)
    ensures
        version_le(a, b) || version_le(b, a),
{
    law_precedence_flips(a, b);
}

/// The text of an identifier.
pub open spec fn identifier_text(i: IdentifierView) -> Seq<char> {
    match i {
        IdentifierView::Numeric(n) => decimal(n as nat),
        IdentifierView::AlphaNumeric(s) => s,
    }
}

/// The texts of identifiers, separated by dots.
pub open spec fn identifiers_text(ids: Seq<IdentifierView>) -> Seq<char>
    decreases ids.len(),
{
    if ids.len() == 0 {
        Seq::empty()
    } else if ids.len() == 1 {
        identifier_text(ids[0])
    } else {
        identifiers_text(ids.drop_last()) + seq!['.'] + identifier_text(ids.last())
    }
}

/// The text of a version, such as `1.2.3-alpha.1+build.5`.
pub open spec fn version_text(v: VersionView) -> Seq<char> {
    decimal(v.major as nat) + seq!['.'] + decimal(v.minor as nat) + seq!['.'] + decimal(
        v.patch as nat,
    ) + (if v.pre.len() == 0 {
        Seq::empty()
    } else {
        seq!['-'] + identifiers_text(v.pre)
    }) + (if v.build.len() == 0 {
        Seq::empty()
    } else {
        seq!['+'] + identifiers_text(v.build)
    })
}

/// What `semver::Version::parse` gives back for a text: a version, or nothing when the
/// text is refused.
pub uninterp spec fn semver_version_parse(text: Seq<char>) -> Option<VersionView>;

/// Whether `semver::VersionReq::parse` accepts a text.
pub uninterp spec fn semver_req_parses(text: Seq<char>) -> bool;

/// Whether the requirement parsed from a text matches a version, by
/// `semver::VersionReq::matches`.
pub uninterp spec fn semver_req_matches(text: Seq<char>, version: VersionView) -> bool;

#[verifier::external_type_specification]
#[verifier::external_body]
pub struct ExSemverVersion(SemverVersion);

/// Builds the `semver` version of the same numbers, identifiers and metadata, field by
/// field; nothing is claimed of the value it hands back.
#[verifier::external_body]
fn to_semver(v: &Version) -> SemverVersion {
    let conv = |ids: &Vec<Identifier>| -> Vec<semver::Identifier> {
        ids.iter().map(|i| match i {
            Identifier::Numeric(n) => semver::Identifier::Numeric(*n),
            Identifier::AlphaNumeric(s) => semver::Identifier::AlphaNumeric(s.clone()),
        }).collect()
    };
    SemverVersion { major: v.major, minor: v.minor, patch: v.patch, pre: conv(&v.pre), build: conv(&v.build) }
}

/// Calls `Ord::cmp` of `semver::Version`. Its source compares the major, minor and patch
/// numbers, then ranks a version without pre-release identifiers after one with some,
/// then compares the pre-release identifiers as a list (numbers before texts, texts by
/// their bytes): the contract claims that this is `precedence`.
#[verifier::external_body]
fn semver_compare(a: &Version, b: &Version) -> (res: Precedence)
    ensures
        res == precedence(a@, b@),
{
    match to_semver(a).cmp(&to_semver(b)) {
        std::cmp::Ordering::Less => Precedence::Less,
        std::cmp::Ordering::Equal => Precedence::Equal,
        std::cmp::Ordering::Greater => Precedence::Greater,
    }
}

/// Calls `PartialEq::eq` of `semver::Version`, whose source compares all fields but the
/// build metadata: the contract claims exactly that.
#[verifier::external_body]
fn semver_equal(a: &Version, b: &Version) -> (res: bool)
    ensures
        res == same_release(a@, b@),
{
    to_semver(a) == to_semver(b)
}

/// Calls `Display` of `semver::Version` (through `to_string`). Its source writes the three
/// numbers separated by dots, then `-` and the pre-release identifiers separated by dots
/// when there are some, then `+` and the build metadata likewise: the contract claims
/// that this is `version_text`.
#[verifier::external_body]
fn semver_text(v: &Version) -> (res: String)
    ensures
        res@ == version_text(v@),
{
    to_semver(v).to_string()
}

/// Calls `semver::Version::parse` and copies the fields of the version it gives back;
/// the contract names the outcome `semver_version_parse`.
#[verifier::external_body]
fn semver_parse(text: &str) -> (res: Option<Version>)
    ensures
        match res {
            Some(v) => semver_version_parse(text@) == Some(v@),
            None => semver_version_parse(text@) is None,
        },
{
    let conv = |ids: Vec<semver::Identifier>| -> Vec<Identifier> {
        ids.into_iter().map(|i| match i {
            semver::Identifier::Numeric(n) => Identifier::Numeric(n),
            semver::Identifier::AlphaNumeric(s) => Identifier::AlphaNumeric(s),
        }).collect()
    };
    SemverVersion::parse(text).ok().map(|v| Version { major: v.major, minor: v.minor, patch: v.patch, pre: conv(v.pre), build: conv(v.build) })
}

/// Calls `semver::VersionReq::parse` and reports whether it accepted the text, with the
/// text of the error otherwise; the contract names the acceptance `semver_req_parses`.
#[verifier::external_body]
fn semver_req_check(text: &str) -> (res: Result<(), String>)
    ensures
        res is Ok <==> semver_req_parses(text@),
{
    semver::VersionReq::parse(text).map(|_| ()).map_err(|e| e.to_string())
}

/// Calls `semver::VersionReq::matches` on the requirement parsed from `req`; the contract
/// names the outcome `semver_req_matches`.
#[verifier::external_body]
fn semver_req_match(req: &str, v: &Version) -> (res: bool)
    requires
        semver_req_parses(req@),
    ensures
        res == semver_req_matches(req@, v@),
{
    semver::VersionReq::parse(req).unwrap().matches(&to_semver(v))
}

impl Identifier {
    /// A copy of this identifier.
    pub fn duplicate(&self) -> (res: Identifier)
        ensures
            res@ == self@,
    {
        match self {
            Identifier::Numeric(n) => Identifier::Numeric(*n),
            Identifier::AlphaNumeric(s) => Identifier::AlphaNumeric(s.clone()),
        }
    }
}

/// A copy of a list of identifiers.
pub fn duplicate_identifiers(ids: &Vec<Identifier>) -> (res: Vec<Identifier>)
    ensures
        identifiers_view(res@) == identifiers_view(ids@),
{
    let mut res: Vec<Identifier> = Vec::new();
    let mut i: usize = 0;
    while i < ids.len()
        invariant
            i <= ids.len(),
            res@.len() == i,
            forall|j: int| 0 <= j < i ==> #[trigger] res@[j]@ == ids@[j]@,
        decreases ids.len() - i,
    {
        res.push(ids[i].duplicate());
        i = i + 1;
    }
    assert(identifiers_view(res@) =~= identifiers_view(ids@));
    res
}

impl Version {
    /// The version `major.minor.patch`, without pre-release identifiers or build metadata.
    pub fn new(major: u64, minor: u64, patch: u64) -> (res: Version)
        ensures
            res@.major == major,
            res@.minor == minor,
            res@.patch == patch,
            res@.pre.len() == 0,
            res@.build.len() == 0,
    {
        let res = Version { major, minor, patch, pre: Vec::new(), build: Vec::new() };
        assert(res@.pre =~= Seq::empty());
        res
    }

    /// Parses a version from its text, as `semver` does; `None` when the text is refused.
    pub fn parse(text: &str) -> (res: Option<Version>)
        ensures
            match res {
                Some(v) => semver_version_parse(text@) == Some(v@),
                None => semver_version_parse(text@) is None,
            },
    {
        semver_parse(text)
    }

    /// A copy of this version.
    pub fn duplicate(&self) -> (res: Version)
        ensures
            res@ == self@,
    {
        Version {
            major: self.major,
            minor: self.minor,
            patch: self.patch,
            pre: duplicate_identifiers(&self.pre),
            build: duplicate_identifiers(&self.build),
        }
    }

    /// The precedence of this version relative to `other`.
    pub fn compare(&self, other: &Version) -> (res: Precedence)
        ensures
            res == precedence(self@, other@),
    {
        semver_compare(self, other)
    }

    /// Whether this version and `other` are the same release (build metadata aside).
    pub fn same_as(&self, other: &Version) -> (res: bool)
        ensures
            res == same_release(self@, other@),
    {
        semver_equal(self, other)
    }

    /// Whether this version comes before `other`, or is of the same precedence.
    pub fn at_most(&self, other: &Version) -> (res: bool)
        ensures
            res == version_le(self@, other@),
    {
        match semver_compare(self, other) {
            Precedence::Greater => false,
            _ => true,
        }
    }

    /// The text of this version, such as `1.2.3-alpha.1`.
    pub fn to_text(&self) -> (res: String)
        ensures
            res@ == version_text(self@),
    {
        semver_text(self)
    }
}

/// A version requirement, such as `^1.2.0`, kept as a text that `semver` accepts.
#[derive(Debug)]
pub struct VersionReq {
    text: String,
}

impl VersionReq {
    #[verifier::type_invariant]
    spec fn accepted(self) -> bool {
        semver_req_parses(self.text@)
    }

    /// The text of this requirement.
    pub closed spec fn spec_text(&self) -> Seq<char> {
        self.text@
    }

    /// Parses a requirement; the error holds `semver`'s message when it refuses the text.
    pub fn parse(text: &str) -> (res: Result<VersionReq, String>)
        ensures
            res is Ok <==> semver_req_parses(text@),
            res matches Ok(r) ==> r.spec_text() == text@,
    {
        match semver_req_check(text) {
            Ok(()) => Ok(VersionReq { text: text.to_owned() }),
            Err(e) => Err(e),
        }
    }

    /// The text of this requirement.
    pub fn as_str(&self) -> (res: &str)
        ensures
            res@ == self.spec_text(),
    {
        self.text.as_str()
    }

    /// Whether `version` satisfies this requirement.
    pub fn matches(&self, version: &Version) -> (res: bool)
        ensures
            res == semver_req_matches(self.spec_text(), version@),
    {
        proof {
            use_type_invariant(self);
        }
        semver_req_match(self.text.as_str(), version)
    }
}

} // verus!
