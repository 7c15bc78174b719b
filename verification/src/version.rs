//! Release versions (`major.minor.patch`) and their precedence.

use vstd::prelude::*;

verus! {

/// A semantic version without pre-release tag or build metadata.
#[derive(Clone, Copy, Debug, PartialEq, Eq, Structural)]
pub struct Version {
    pub major: u64,
    pub minor: u64,
    pub patch: u64,
}

/// The character that stands for a decimal digit.
pub open spec fn digit(d: nat) -> char
    recommends
        d < 10,
{
    ((d + 48) as u8) as char
}

/// The decimal numeral of `n`, without leading zeros.
pub open spec fn decimal(n: nat) -> Seq<char>
    decreases n,
{
    if n < 10 {
        seq![digit(n)]
    } else {
        decimal(n / 10).push(digit(n % 10))
    }
}

/// What `semver::Version::parse` makes of a text: the three numbers, the
/// pre-release tag and the build metadata, or `None` where it rejects the text.
pub uninterp spec fn semver_parse(text: Seq<char>) -> Option<(u64, u64, u64, Seq<char>, Seq<char>)>;

/// The parts of a parsed version, as plain values.
struct Parts {
    major: u64,
    minor: u64,
    patch: u64,
    pre: String,
    build: String,
}

/// Calls `semver::Version::parse` and hands out the fields of the version it
/// returns. The contract only names the outcome: it is a function of the text.
#[verifier::external_body]
fn parse_parts(text: &str) -> (parts: Option<Parts>)
    ensures
        match parts {
            Some(p) => semver_parse(text@) == Some((p.major, p.minor, p.patch, p.pre@, p.build@)),
            None => semver_parse(text@).is_none(),
        },
{
    match semver::Version::parse(text) {
        Ok(v) => Some(Parts {
            major: v.major,
            minor: v.minor,
            patch: v.patch,
            pre: v.pre.as_str().to_string(),
            build: v.build.as_str().to_string(),
        }),
        Err(_) => None,
    }
}

/// Calls `semver::VersionReq::matches` with the single comparator `>=floor`
/// on a release version. For a version without pre-release tag that is the
/// lexicographic comparison of the three numbers.
#[verifier::external_body]
fn matches_at_least(version: &Version, floor: &Version) -> (held: bool)
    ensures
        held == version.at_least(*floor),
{
    let comparator = semver::Comparator {
        op: semver::Op::GreaterEq,
        major: floor.major,
        minor: Some(floor.minor),
        patch: Some(floor.patch),
        pre: semver::Prerelease::EMPTY,
    };
    let requirement = semver::VersionReq { comparators: vec![comparator] };
    requirement.matches(&semver::Version::new(version.major, version.minor, version.patch))
}

/// Formats through `semver::Version`'s `Display`: the three decimal numerals
/// separated by dots, nothing else for a release version. What it writes,
/// `semver::Version::parse` reads back as the same three numbers without
/// tag or metadata: the numerals have no leading zeros and fit their type.
#[verifier::external_body]
fn display_release(version: &Version) -> (text: String)
    ensures
        text@ == version.text(),
        semver_parse(text@) == Some(
            (version.major, version.minor, version.patch, Seq::<char>::empty(), Seq::<char>::empty()),
        ),
{
    semver::Version::new(version.major, version.minor, version.patch).to_string()
}

impl Version {
    /// Strict precedence: the numbers compared left to right.
    pub open spec fn precedes(self, other: Version) -> bool {
        self.major < other.major || (self.major == other.major && (self.minor < other.minor || (
        self.minor == other.minor && self.patch < other.patch)))
    }

    /// `self` is `floor` or a later version.
    pub open spec fn at_least(self, floor: Version) -> bool {
        !self.precedes(floor)
    }

    /// The persisted text of a version.
    pub open spec fn text(self) -> Seq<char> {
        decimal(self.major as nat) + seq!['.'] + decimal(self.minor as nat) + seq!['.'] + decimal(
            self.patch as nat,
        )
    }

    /// The version a text stands for, if it is a release version.
    pub open spec fn parsed(text: Seq<char>) -> Option<Version> {
        match semver_parse(text) {
            Some(p) => if p.3.len() == 0 && p.4.len() == 0 {
                Some(Version { major: p.0, minor: p.1, patch: p.2 })
            } else {
                None
            },
            None => None,
        }
    }

    pub fn new(major: u64, minor: u64, patch: u64) -> (version: Version)
        ensures
            version == (Version { major, minor, patch }),
    {
        Version { major, minor, patch }
    }

    /// `0.0.0`, the version of a schema on which no step has run.
    pub fn zero() -> (version: Version)
        ensures
            version == Version::origin(),
    {
        Version { major: 0, minor: 0, patch: 0 }
    }

    pub open spec fn origin() -> Version {
        Version { major: 0, minor: 0, patch: 0 }
    }

    /// Whether this version satisfies the requirement `>=floor`.
    pub fn satisfies(&self, floor: &Version) -> (held: bool)
        ensures
            held == self.at_least(*floor),
    {
        matches_at_least(self, floor)
    }

    /// Reads a release version. A text that is no semantic version, or one
    /// that carries a pre-release tag or build metadata, gives `None`.
    pub fn parse(text: &str) -> (version: Option<Version>)
        ensures
            version == Version::parsed(text@),
    {
        match parse_parts(text) {
            Some(parts) => {
                if parts.pre.as_str().is_empty() && parts.build.as_str().is_empty() {
                    Some(Version { major: parts.major, minor: parts.minor, patch: parts.patch })
                } else {
                    None
                }
            },
            None => None,
        }
    }

    /// The text under which the version is persisted. It reads back as the
    /// version.
    pub fn to_string(&self) -> (text: String)
        ensures
            text@ == self.text(),
            Version::parsed(text@) == Some(*self),
    {
        display_release(self)
    }
}

} // verus!
