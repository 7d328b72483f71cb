//! Semantic versions and the bump engine.
//!
//! Reading a version from text and ordering pre-release tags are left to
//! the `semver` crate; everything else is decided here. Versions are ordered
//! by precedence: the release triple, then the pre-release tag. Build tags
//! are carried along and never compared.

use crate::error::{BumpError, ErrorView};
use crate::text::{decimal, decimal_string, split_dots};
use vstd::prelude::*;
use vstd::string::*;

verus! {

/// A semantic version: the release triple and its two optional tags, each
/// kept as the text that follows `-` or `+`, empty when absent.
#[derive(Debug, PartialEq, Eq)]
pub struct Version {
    major: u64,
    minor: u64,
    patch: u64,
    pre: String,
    build: String,
}

/// The mathematical content of a [`Version`].
pub struct VersionView {
    pub major: nat,
    pub minor: nat,
    pub patch: nat,
    pub pre: Seq<char>,
    pub build: Seq<char>,
}

/// How to move a version forward.
#[derive(Debug, Clone, PartialEq, Eq)]
pub enum VersionBump {
    Major,
    Minor,
    Patch,
    Specific(Version),
}

/// The mathematical content of a [`VersionBump`].
pub enum BumpView {
    Major,
    Minor,
    Patch,
    Specific(VersionView),
}

/// The outcome of a three-way comparison.
#[derive(Debug, Clone, Copy, PartialEq, Eq, Structural)]
pub enum Order {
    Less,
    Equal,
    Greater,
}

/// A character that may stand in a tag identifier.
pub open spec fn is_tag_char(c: char) -> bool {
    ('0' <= c && c <= '9') || ('A' <= c && c <= 'Z') || ('a' <= c && c <= 'z') || c == '-'
}

/// Every character of `s` is a decimal digit.
pub open spec fn is_numeric(s: Seq<char>) -> bool {
    forall|i: int| 0 <= i < s.len() ==> '0' <= #[trigger] s[i] && s[i] <= '9'
}

/// One identifier of a tag: not empty, of tag characters only, and, unless
/// `leading_zero` allows it, not a number of several digits that starts with
/// zero.
pub open spec fn is_identifier(s: Seq<char>, leading_zero: bool) -> bool {
    &&& s.len() > 0
    &&& forall|i: int| 0 <= i < s.len() ==> is_tag_char(#[trigger] s[i])
    &&& leading_zero || !(s.len() > 1 && is_numeric(s) && s[0] == '0')
}

/// A tag: empty, or identifiers separated by dots.
pub open spec fn is_tag(s: Seq<char>, leading_zero: bool) -> bool {
    s.len() == 0 || forall|i: int|
        0 <= i < split_dots(s).len() ==> is_identifier(#[trigger] split_dots(s)[i], leading_zero)
}

/// The bare version `major.minor.patch`.
pub open spec fn release(major: nat, minor: nat, patch: nat) -> VersionView {
    VersionView { major, minor, patch, pre: Seq::empty(), build: Seq::empty() }
}

/// The text `major.minor.patch`.
pub open spec fn release_text(v: VersionView) -> Seq<char> {
    decimal(v.major) + seq!['.'] + decimal(v.minor) + seq!['.'] + decimal(v.patch)
}

/// The full text of a version: the release, then `-` and the pre-release tag
/// and `+` and the build tag, each only where the tag is not empty.
pub open spec fn version_text(v: VersionView) -> Seq<char> {
    release_text(v) + (if v.pre.len() > 0 {
        seq!['-'] + v.pre
    } else {
        Seq::empty()
    }) + (if v.build.len() > 0 {
        seq!['+'] + v.build
    } else {
        Seq::empty()
    })
}

/// What `semver::Version::parse` reads from `text`: `Some` version where it
/// accepts the text, `None` where it rejects it.
pub uninterp spec fn parsed_version(text: Seq<char>) -> Option<VersionView>;

/// How `semver::Prerelease` orders the tag `a` against the tag `b`.
pub uninterp spec fn prerelease_order(a: Seq<char>, b: Seq<char>) -> Order;

/// `a`'s release triple is below `b`'s, compared left to right.
pub open spec fn release_precedes(a: VersionView, b: VersionView) -> bool {
    a.major < b.major || (a.major == b.major && (a.minor < b.minor || (a.minor == b.minor
        && a.patch < b.patch)))
}

/// `a` and `b` have the same release triple.
pub open spec fn same_release(a: VersionView, b: VersionView) -> bool {
    a.major == b.major && a.minor == b.minor && a.patch == b.patch
}

/// `a` has lower precedence than `b`: by release triple, then by pre-release
/// tag. Build tags play no part, so two versions that differ in them alone
/// do not precede one another.
pub open spec fn precedes(a: VersionView, b: VersionView) -> bool {
    release_precedes(a, b) || (same_release(a, b) && prerelease_order(a.pre, b.pre)
        == Order::Less)
}

/// What a bump of `current` by `level` gives: the new bare version, or the
/// failure.
pub open spec fn bump_outcome(current: VersionView, level: BumpView) -> Result<
    VersionView,
    ErrorView,
> {
    match level {
        BumpView::Major => if current.major < u64::MAX {
            Ok(release(current.major + 1, 0, 0))
        } else {
            Err(ErrorView::VersionOverflow(version_text(current)))
        },
        BumpView::Minor => if current.minor < u64::MAX {
            Ok(release(current.major, current.minor + 1, 0))
        } else {
            Err(ErrorView::VersionOverflow(version_text(current)))
        },
        BumpView::Patch => if current.patch < u64::MAX {
            Ok(release(current.major, current.minor, current.patch + 1))
        } else {
            Err(ErrorView::VersionOverflow(version_text(current)))
        },
        BumpView::Specific(target) => if precedes(current, target) {
            Ok(release(target.major, target.minor, target.patch))
        } else {
            Err(
                ErrorView::VersionNotIncreasing {
                    target: version_text(target),
                    current: version_text(current),
                },
            )
        },
    }
}

/// What bumping the version written in `text` gives: the text of the new
/// bare version, or the failure.
pub open spec fn bump_text_outcome(text: Seq<char>, level: BumpView) -> Result<
    Seq<char>,
    ErrorView,
> {
    match parsed_version(text) {
        None => Err(ErrorView::InvalidVersion(text)),
        Some(current) => match bump_outcome(current, level) {
            Ok(next) => Ok(release_text(next)),
            Err(e) => Err(e),
        },
    }
}

/// A major, minor or patch bump that succeeds gives a version strictly above
/// the current one, keeps the components to the left of the incremented one
/// and resets those to its right to zero.
pub proof fn lemma_bump_increases(current: VersionView, level: BumpView)
    requires
        !(level is Specific),
        bump_outcome(current, level) is Ok,
    ensures
        precedes(current, bump_outcome(current, level)->Ok_0),
        level is Major ==> bump_outcome(current, level)->Ok_0 == release(current.major + 1, 0, 0),
        level is Minor ==> bump_outcome(current, level)->Ok_0 == release(
            current.major,
            current.minor + 1,
            0,
        ),
        level is Patch ==> bump_outcome(current, level)->Ok_0 == release(
            current.major,
            current.minor,
            current.patch + 1,
        ),
{
}

/// A bump to an explicit target succeeds exactly when the current version
/// precedes the target, and then gives the target's release triple;
/// otherwise it fails as not increasing.
pub proof fn lemma_specific_bump(current: VersionView, target: VersionView)
    ensures
        bump_outcome(current, BumpView::Specific(target)) is Ok <==> precedes(current, target),
        precedes(current, target) ==> bump_outcome(current, BumpView::Specific(target)) == Ok::<
            VersionView,
            ErrorView,
        >(release(target.major, target.minor, target.patch)),
        !precedes(current, target) ==> bump_outcome(current, BumpView::Specific(target))
            is Err && bump_outcome(current, BumpView::Specific(target))->Err_0
            is VersionNotIncreasing,
{
}

impl View for Version {
    type V = VersionView;

    closed spec fn view(&self) -> VersionView {
        VersionView {
            major: self.major as nat,
            minor: self.minor as nat,
            patch: self.patch as nat,
            pre: self.pre@,
            build: self.build@,
        }
    }
}

impl Clone for Version {
    fn clone(&self) -> (r: Version)
        ensures
            r@ == self@,
    {
        proof {
            use_type_invariant(self);
        }
        Version {
            major: self.major,
            minor: self.minor,
            patch: self.patch,
            pre: self.pre.clone(),
            build: self.build.clone(),
        }
    }
}

impl View for VersionBump {
    type V = BumpView;

    open spec fn view(&self) -> BumpView {
        match self {
            VersionBump::Major => BumpView::Major,
            VersionBump::Minor => BumpView::Minor,
            VersionBump::Patch => BumpView::Patch,
            VersionBump::Specific(target) => BumpView::Specific(target@),
        }
    }
}

impl Version {
    /// The pre-release tag has the shape that the `semver` crate accepts.
    #[verifier::type_invariant]
    pub open spec fn well_formed(self) -> bool {
        is_tag(self@.pre, false)
    }

    /// The bare version `major.minor.patch`.
    pub fn new(major: u64, minor: u64, patch: u64) -> (v: Version)
        ensures
            v@ == release(major as nat, minor as nat, patch as nat),
    {
        Version { major, minor, patch, pre: String::new(), build: String::new() }
    }

    pub fn major(&self) -> (r: u64)
        ensures
            r == self@.major,
    {
        self.major
    }

    pub fn minor(&self) -> (r: u64)
        ensures
            r == self@.minor,
    {
        self.minor
    }

    pub fn patch(&self) -> (r: u64)
        ensures
            r == self@.patch,
    {
        self.patch
    }

    /// The pre-release tag, empty when there is none.
    pub fn pre(&self) -> (r: &str)
        ensures
            r@ == self@.pre,
    {
        self.pre.as_str()
    }

    /// The build tag, empty when there is none.
    pub fn build(&self) -> (r: &str)
        ensures
            r@ == self@.build,
    {
        self.build.as_str()
    }

    /// Reads a version from its text.
    pub fn parse(text: &str) -> (r: Result<Version, BumpError>)
        ensures
            match parsed_version(text@) {
                Some(v) => r matches Ok(version) && version@ == v,
                None => r matches Err(e) && e@ == ErrorView::InvalidVersion(text@),
            },
    {
        match semver_parse(text) {
            Ok(version) => Ok(version),
            Err(_) => Err(BumpError::InvalidVersion(text.to_owned())),
        }
    }

    /// Whether `self` has lower precedence than `other`.
    ///
    /// A version never precedes one with the same release triple and the
    /// same pre-release tag, whatever the build tags; a pre-release precedes
    /// the release of its own triple, and the release does not precede it.
    pub fn precedes(&self, other: &Version) -> (r: bool)
        ensures
            r == precedes(self@, other@),
            same_release(self@, other@) && self@.pre == other@.pre ==> !r,
            same_release(self@, other@) && self@.pre.len() > 0 && other@.pre.len() == 0 ==> r,
            same_release(self@, other@) && self@.pre.len() == 0 ==> !r,
    {
        proof {
            use_type_invariant(self);
            use_type_invariant(other);
            if self.pre@.len() == 0 && other.pre@.len() == 0 {
                assert(self.pre@ =~= other.pre@);
            }
        }
        if self.major != other.major {
            self.major < other.major
        } else if self.minor != other.minor {
            self.minor < other.minor
        } else if self.patch != other.patch {
            self.patch < other.patch
        } else {
            match compare_prerelease(self.pre.as_str(), other.pre.as_str()) {
                Order::Less => true,
                _ => false,
            }
        }
    }

    /// The text `major.minor.patch`, without the tags.
    pub fn release_text(&self) -> (r: String)
        ensures
            r@ == release_text(self@),
    {
        proof {
            reveal_strlit(".");
        }
        let mut r = decimal_string(self.major);
        r.append(".");
        r.append(decimal_string(self.minor).as_str());
        r.append(".");
        r.append(decimal_string(self.patch).as_str());
        assert(r@ =~= release_text(self@));
        r
    }

    /// The full text of the version, tags included.
    pub fn to_text(&self) -> (r: String)
        ensures
            r@ == version_text(self@),
    {
        proof {
            reveal_strlit("-");
            reveal_strlit("+");
        }
        let mut r = self.release_text();
        if !self.pre.as_str().is_empty() {
            r.append("-");
            r.append(self.pre.as_str());
        }
        if !self.build.as_str().is_empty() {
            r.append("+");
            r.append(self.build.as_str());
        }
        assert(r@ =~= version_text(self@));
        r
    }

    /// Moves the version forward by `level`, giving the new bare version.
    ///
    /// An explicit target is accepted exactly when `self` precedes it. A
    /// target with the triple and pre-release tag of `self` is refused,
    /// whatever the build tags; the release of a pre-release's own triple is
    /// accepted.
    pub fn bump(&self, level: &VersionBump) -> (r: Result<Version, BumpError>)
        ensures
            match bump_outcome(self@, level@) {
                Ok(next) => r matches Ok(v) && v@ == next,
                Err(e) => r matches Err(x) && x@ == e,
            },
            level@ matches BumpView::Specific(target) && same_release(self@, target)
                && self@.pre == target.pre ==> (r matches Err(e) && e@ is VersionNotIncreasing),
            level@ matches BumpView::Specific(target) && same_release(self@, target)
                && self@.pre.len() > 0 && target.pre.len() == 0 ==> r is Ok,
            level@ matches BumpView::Specific(target) && same_release(self@, target)
                && self@.pre.len() == 0 ==> (r matches Err(e) && e@ is VersionNotIncreasing),
    {
        match level {
            VersionBump::Major => {
                if self.major < u64::MAX {
                    Ok(Version::new(self.major + 1, 0, 0))
                } else {
                    Err(BumpError::VersionOverflow(self.to_text()))
                }
            },
            VersionBump::Minor => {
                if self.minor < u64::MAX {
                    Ok(Version::new(self.major, self.minor + 1, 0))
                } else {
                    Err(BumpError::VersionOverflow(self.to_text()))
                }
            },
            VersionBump::Patch => {
                if self.patch < u64::MAX {
                    Ok(Version::new(self.major, self.minor, self.patch + 1))
                } else {
                    Err(BumpError::VersionOverflow(self.to_text()))
                }
            },
            VersionBump::Specific(target) => {
                if self.precedes(target) {
                    Ok(Version::new(target.major, target.minor, target.patch))
                } else {
                    Err(
                        BumpError::VersionNotIncreasing {
                            target: target.to_text(),
                            current: self.to_text(),
                        },
                    )
                }
            },
        }
    }
}

impl VersionBump {
    /// The bump that a lower-case keyword names, if it is one.
    pub fn from_keyword(word: &str) -> (r: Option<VersionBump>)
        ensures
            word@ == "major"@ ==> (r matches Some(b) && b@ == BumpView::Major),
            word@ == "minor"@ ==> (r matches Some(b) && b@ == BumpView::Minor),
            word@ == "patch"@ ==> (r matches Some(b) && b@ == BumpView::Patch),
            word@ != "major"@ && word@ != "minor"@ && word@ != "patch"@ ==> r is None,
    {
        proof {
            reveal_strlit("major");
            reveal_strlit("minor");
            reveal_strlit("patch");
            assert("major"@[1] == 'a' && "minor"@[1] == 'i' && "patch"@[0] == 'p');
            assert("major"@[0] == 'm' && "minor"@[0] == 'm');
        }
        let word = word.to_owned();
        if word == String::from_str("major") {
            Some(VersionBump::Major)
        } else if word == String::from_str("minor") {
            Some(VersionBump::Minor)
        } else if word == String::from_str("patch") {
            Some(VersionBump::Patch)
        } else {
            None
        }
    }

    /// The bump that `text` asks for: one of the keywords in any letter
    /// case, or else an explicit version, read from the text as written.
    pub open spec fn requested(text: Seq<char>) -> Option<BumpView> {
        let word = lowercase(text);
        if word == "major"@ {
            Some(BumpView::Major)
        } else if word == "minor"@ {
            Some(BumpView::Minor)
        } else if word == "patch"@ {
            Some(BumpView::Patch)
        } else {
            match parsed_version(text) {
                Some(target) => Some(BumpView::Specific(target)),
                None => None,
            }
        }
    }

    /// Reads a bump instruction: `major`, `minor` or `patch` in any letter
    /// case, or an explicit target version, whose letters are kept as they
    /// are written.
    pub fn from_str(text: &str) -> (r: Result<VersionBump, BumpError>)
        ensures
            match VersionBump::requested(text@) {
                Some(b) => r matches Ok(bump) && bump@ == b,
                None => r matches Err(e) && e@ == ErrorView::InvalidVersion(text@),
            },
    {
        let word = to_lowercase(text);
        match VersionBump::from_keyword(word.as_str()) {
            Some(bump) => Ok(bump),
            None => match Version::parse(text) {
                Ok(target) => Ok(VersionBump::Specific(target)),
                Err(e) => Err(e),
            },
        }
    }
}

/// Bumps the version written in `version` and gives the text of the new
/// bare version.
pub fn bump_semver(version: &str, level: &VersionBump) -> (r: Result<String, BumpError>)
    ensures
        match bump_text_outcome(version@, level@) {
            Ok(text) => r matches Ok(s) && s@ == text,
            Err(e) => r matches Err(x) && x@ == e,
        },
        level@ matches BumpView::Specific(target) && parsed_version(version@) matches Some(
            current,
        ) && same_release(current, target) && current.pre == target.pre ==> (r matches Err(e)
            && e@ is VersionNotIncreasing),
{
    match Version::parse(version) {
        Err(e) => Err(e),
        Ok(current) => match current.bump(level) {
            Ok(next) => Ok(next.release_text()),
            Err(e) => Err(e),
        },
    }
}

#[verifier::external_type_specification]
#[verifier::external_body]
pub struct ExSemverError(semver::Error);

/// The lower-case form of `s` as `str::to_lowercase` gives it.
pub uninterp spec fn lowercase(s: Seq<char>) -> Seq<char>;

/// `str::to_lowercase`: the result is the lower-case form of the argument.
#[verifier::external_body]
fn to_lowercase(s: &str) -> (r: String)
    ensures
        r@ == lowercase(s@),
{
    s.to_lowercase()
}

/// `semver::Version::parse`, with the version it accepts copied field by
/// field. The result is what `parsed_version` names; the pre-release tag of
/// an accepted version has the shape that the crate's grammar demands.
#[verifier::external_body]
fn semver_parse(text: &str) -> (r: Result<Version, semver::Error>)
    ensures
        r matches Ok(v) ==> (parsed_version(text@) == Some(v@) && v.well_formed()),
        r is Err ==> parsed_version(text@) is None,
{
    let v = semver::Version::parse(text)?;
    Ok(
        Version {
            major: v.major,
            minor: v.minor,
            patch: v.patch,
            pre: v.pre.as_str().to_owned(),
            build: v.build.as_str().to_owned(),
        },
    )
}

/// `Ord::cmp` of `semver::Prerelease`, on the two tags as `Prerelease::new`
/// reads them. A tag compares equal to itself; the empty tag, which stands
/// for a release, is above every other tag.
#[verifier::external_body]
fn compare_prerelease(a: &str, b: &str) -> (r: Order)
    requires
        is_tag(a@, false),
        is_tag(b@, false),
    ensures
        r == prerelease_order(a@, b@),
        a@ == b@ ==> r == Order::Equal,
        a@.len() == 0 && b@.len() > 0 ==> r == Order::Greater,
        a@.len() > 0 && b@.len() == 0 ==> r == Order::Less,
{
    let a = semver::Prerelease::new(a).unwrap();
    let b = semver::Prerelease::new(b).unwrap();
    match a.cmp(&b) {
        std::cmp::Ordering::Less => Order::Less,
        std::cmp::Ordering::Equal => Order::Equal,
        std::cmp::Ordering::Greater => Order::Greater,
    }
}

} // verus!
