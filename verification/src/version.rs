//! Semantic versions of drivers, and the test that tells a stale driver
//! from a current one.

use vstd::prelude::*;
use vstd::string::*;
use crate::error::Failure;
use crate::text::version_token;
use crate::text::version_token_of;

verus! {

/// How one version, or one part of it, stands to another.
#[derive(Clone, Copy, Debug, PartialEq, Eq, Structural)]
pub enum VersionOrder {
    Less,
    Equal,
    Greater,
}

/// What a version is made of: the three numbers, the pre-release part and
/// the build metadata, the last two empty where the version has none.
pub struct VersionParts {
    pub major: u64,
    pub minor: u64,
    pub patch: u64,
    pub pre: Seq<char>,
    pub build: Seq<char>,
}

/// What `semver::Version::parse` makes of `text`: nothing where `text` is no
/// semantic version, else its three numbers, its pre-release part and its
/// build metadata.
pub uninterp spec fn semver_parse(text: Seq<char>) -> Option<(u64, u64, u64, Seq<char>, Seq<char>)>;

/// Whether `semver::Prerelease::new` accepts `text`.
pub uninterp spec fn semver_prerelease_valid(text: Seq<char>) -> bool;

/// How `semver::Prerelease` orders the pre-release part `a` against `b`.
pub uninterp spec fn semver_prerelease_order(a: Seq<char>, b: Seq<char>) -> VersionOrder;

#[verifier::external_type_specification]
#[verifier::external_body]
pub struct ExSemverError(semver::Error);

/// The parts of the version that `text` is, if it is one.
pub open spec fn parsed(text: Seq<char>) -> Option<VersionParts> {
    match semver_parse(text) {
        None => None,
        Some(p) => Some(VersionParts { major: p.0, minor: p.1, patch: p.2, pre: p.3, build: p.4 }),
    }
}

/// Whether version `a` comes strictly before version `b` in precedence: by
/// the numbers first, from the left, then by the pre-release parts. Build
/// metadata plays no part: versions that differ in nothing else are equal in
/// precedence.
pub open spec fn version_precedes(a: VersionParts, b: VersionParts) -> bool {
    if a.major != b.major {
        a.major < b.major
    } else if a.minor != b.minor {
        a.minor < b.minor
    } else if a.patch != b.patch {
        a.patch < b.patch
    } else {
        semver_prerelease_order(a.pre, b.pre) == VersionOrder::Less
    }
}

/// How a cached driver stands to the running tool.
#[derive(Clone, Copy, Debug, PartialEq, Eq, Structural)]
pub enum Staleness {
    /// The driver's version is the tool's or a later one.
    Current,
    /// The driver's version comes strictly before the tool's.
    Older,
    /// The driver's version token is no semantic version.
    Unreadable,
}

/// How a driver of version `theirs` stands to a tool of version `ours`, each
/// given as the outcome of parsing. A tool whose own version is unreadable
/// cannot judge a readable one.
pub open spec fn verdict_of(theirs: Option<VersionParts>, ours: Option<VersionParts>) -> Result<
    Staleness,
    Failure,
> {
    match theirs {
        None => Ok(Staleness::Unreadable),
        Some(t) => match ours {
            None => Err(Failure::OwnVersion),
            Some(o) => Ok(
                if version_precedes(t, o) {
                    Staleness::Older
                } else {
                    Staleness::Current
                },
            ),
        },
    }
}

/// How a driver that printed `stdout` stands to a tool of version
/// `tool_version`.
pub open spec fn staleness_of(stdout: Seq<u8>, tool_version: Seq<char>) -> Result<
    Staleness,
    Failure,
> {
    match version_token_of(stdout) {
        Err(e) => Err(e),
        Ok(token) => verdict_of(parsed(token), parsed(tool_version)),
    }
}

/// Whether a driver that printed `stdout` is out of date for a tool of
/// version `tool_version`: it is unless it is current.
pub open spec fn outdated_of(stdout: Seq<u8>, tool_version: Seq<char>) -> Result<bool, Failure> {
    match staleness_of(stdout, tool_version) {
        Err(e) => Err(e),
        Ok(s) => Ok(s != Staleness::Current),
    }
}

/// Whether a warning is owed for a driver that printed `stdout`: it is where
/// the output ends in a token and that token is no semantic version.
pub open spec fn warning_owed(stdout: Seq<u8>) -> bool {
    version_token_of(stdout) is Ok && parsed(version_token_of(stdout)->Ok_0) is None
}

/// Text of the warning on a driver whose version token `token` could not be
/// read, with the parser's explanation `detail`.
pub open spec fn warning_text(token: Seq<char>, detail: Seq<char>) -> Seq<char> {
    "Could not parse driver version `"@ + token + "`: "@ + detail
}

/// A semantic version that was read from text.
pub struct DriverVersion {
    major: u64,
    minor: u64,
    patch: u64,
    pre: String,
    build: String,
}

/// Calls `semver::Version::parse` and takes the version apart. The contract
/// claims that the outcome depends on the text alone, and that the
/// pre-release part of a version that was read is accepted by
/// `semver::Prerelease::new`.
#[verifier::external_body]
fn parse_semver(text: &str) -> (r: Result<(u64, u64, u64, String, String), semver::Error>)
    ensures
        r is Ok <==> semver_parse(text@) is Some,
        r is Ok ==> semver_parse(text@) == Some(
            (r->Ok_0.0, r->Ok_0.1, r->Ok_0.2, r->Ok_0.3@, r->Ok_0.4@),
        ),
        r is Ok ==> semver_prerelease_valid(r->Ok_0.3@),
{
    let v = semver::Version::parse(text)?;
    Ok((v.major, v.minor, v.patch, v.pre.as_str().to_string(), v.build.as_str().to_string()))
}

/// Compares two pre-release parts as `semver::Prerelease` orders them. The
/// contract claims that the outcome depends on the two texts alone.
#[verifier::external_body]
fn prerelease_order(a: &str, b: &str) -> (r: VersionOrder)
    requires
        semver_prerelease_valid(a@),
        semver_prerelease_valid(b@),
    ensures
        r == semver_prerelease_order(a@, b@),
{
    let x = semver::Prerelease::new(a).unwrap();
    let y = semver::Prerelease::new(b).unwrap();
    match x.cmp(&y) {
        std::cmp::Ordering::Less => VersionOrder::Less,
        std::cmp::Ordering::Equal => VersionOrder::Equal,
        std::cmp::Ordering::Greater => VersionOrder::Greater,
    }
}

/// Calls `to_string` on a `semver::Error`, which gives the parser's
/// explanation of why a text is no version. Nothing is claimed of the text.
#[verifier::external_body]
fn error_text(error: &semver::Error) -> (r: String) {
    error.to_string()
}

impl DriverVersion {
    #[verifier::type_invariant]
    spec fn well_formed(self) -> bool {
        semver_prerelease_valid(self.pre@)
    }

    /// The parts of this version.
    pub closed spec fn parts(self) -> VersionParts {
        VersionParts {
            major: self.major,
            minor: self.minor,
            patch: self.patch,
            pre: self.pre@,
            build: self.build@,
        }
    }

    /// Reads a semantic version from `text`.
    pub fn parse(text: &str) -> (r: Option<DriverVersion>)
        ensures
            r is Some <==> parsed(text@) is Some,
            r is Some ==> Some(r->Some_0.parts()) == parsed(text@),
    {
        match parse_semver(text) {
            Err(_) => None,
            Ok(p) => Some(DriverVersion { major: p.0, minor: p.1, patch: p.2, pre: p.3, build: p.4 }),
        }
    }

    pub fn major(&self) -> (n: u64)
        ensures
            n == self.parts().major,
    {
        self.major
    }

    pub fn minor(&self) -> (n: u64)
        ensures
            n == self.parts().minor,
    {
        self.minor
    }

    pub fn patch(&self) -> (n: u64)
        ensures
            n == self.parts().patch,
    {
        self.patch
    }

    pub fn pre(&self) -> (s: &str)
        ensures
            s@ == self.parts().pre,
    {
        self.pre.as_str()
    }

    pub fn build_metadata(&self) -> (s: &str)
        ensures
            s@ == self.parts().build,
    {
        self.build.as_str()
    }

    /// Whether this version comes strictly before `other` in precedence.
    pub fn precedes(&self, other: &DriverVersion) -> (r: bool)
        ensures
            r == version_precedes(self.parts(), other.parts()),
    {
        proof {
            use_type_invariant(self);
            use_type_invariant(other);
        }
        if self.major != other.major {
            self.major < other.major
        } else if self.minor != other.minor {
            self.minor < other.minor
        } else if self.patch != other.patch {
            self.patch < other.patch
        } else {
            match prerelease_order(self.pre.as_str(), other.pre.as_str()) {
                VersionOrder::Less => true,
                _ => false,
            }
        }
    }
}

/// Decides from the two parsed versions how the driver stands to the tool.
/// `theirs` is the driver's version and `ours` that of the running tool, each
/// absent where the text was no semantic version.
pub fn verdict(theirs: &Option<DriverVersion>, ours: &Option<DriverVersion>) -> (r: Result<
    Staleness,
    Failure,
>)
    ensures
        r == verdict_of(
            match *theirs {
                Some(t) => Some(t.parts()),
                None => None,
            },
            match *ours {
                Some(o) => Some(o.parts()),
                None => None,
            },
        ),
{
    match theirs {
        None => Ok(Staleness::Unreadable),
        Some(t) => match ours {
            None => Err(Failure::OwnVersion),
            Some(o) => if t.precedes(o) {
                Ok(Staleness::Older)
            } else {
                Ok(Staleness::Current)
            },
        },
    }
}

/// Decides how the driver that printed `stdout`, when asked for its version,
/// stands to a tool of version `tool_version`.
///
/// The call fails where the output is not UTF-8, where it holds no space,
/// and where the driver's version is readable and the tool's own is not.
pub fn staleness(stdout: &[u8], tool_version: &str) -> (r: Result<Staleness, Failure>)
    ensures
        r == staleness_of(stdout@, tool_version@),
{
    match version_token(stdout) {
        Err(e) => Err(e),
        Ok(token) => {
            let theirs = DriverVersion::parse(token);
            let ours = DriverVersion::parse(tool_version);
            verdict(&theirs, &ours)
        },
    }
}

/// Decides whether the driver that printed `stdout`, when asked for its
/// version, is out of date for a tool of version `tool_version`.
///
/// The driver is out of date where its version comes strictly before the
/// tool's, and also where its version token is no semantic version. The call
/// fails where `staleness` does.
pub fn is_outdated(stdout: &[u8], tool_version: &str) -> (r: Result<bool, Failure>)
    ensures
        r == outdated_of(stdout@, tool_version@),
{
    match staleness(stdout, tool_version) {
        Err(e) => Err(e),
        Ok(Staleness::Current) => Ok(false),
        Ok(_) => Ok(true),
    }
}

/// Builds the warning on a driver whose version token could not be read:
/// it names the token and gives the parser's explanation.
pub fn warning_message(token: &str, detail: &str) -> (text: String)
    ensures
        text@ == warning_text(token@, detail@),
{
    let mut text = String::from_str("Could not parse driver version `");
    text.append(token);
    text.append("`: ");
    text.append(detail);
    text
}

/// Says whether a warning is owed for the driver that printed `stdout`, and
/// hands out its text: one is owed exactly where the driver's version token
/// is no semantic version, and it names that token.
pub fn version_warning(stdout: &[u8]) -> (r: Option<String>)
    ensures
        r is Some <==> warning_owed(stdout@),
        r is Some ==> exists|detail: Seq<char>|
            r->Some_0@ == #[trigger] warning_text(version_token_of(stdout@)->Ok_0, detail),
{
    match version_token(stdout) {
        Err(_) => None,
        Ok(token) => match parse_semver(token) {
            Ok(_) => None,
            Err(error) => {
                let detail = error_text(&error);
                Some(warning_message(token, detail.as_str()))
            },
        },
    }
}

/// A warning is owed exactly where the driver's version is judged
/// unreadable, whatever the tool's own version is; and a driver is out of
/// date exactly where it is older or unreadable.
pub proof fn warning_accompanies_unreadable(stdout: Seq<u8>, tool_version: Seq<char>)
    ensures
        warning_owed(stdout) <==> staleness_of(stdout, tool_version) == Ok::<Staleness, Failure>(
            Staleness::Unreadable,
        ),
        outdated_of(stdout, tool_version) == Ok::<bool, Failure>(true) <==> (staleness_of(
            stdout,
            tool_version,
        ) == Ok::<Staleness, Failure>(Staleness::Older) || staleness_of(stdout, tool_version)
            == Ok::<Staleness, Failure>(Staleness::Unreadable)),
{
}

/// Versions that differ in their build metadata alone are equal in
/// precedence as far as the numbers and the pre-release parts go: which of
/// two versions comes first does not depend on their build metadata.
pub proof fn build_metadata_is_ignored(a: VersionParts, b: VersionParts, x: Seq<char>, y: Seq<char>)
    ensures
        version_precedes(a, b) == version_precedes(
            VersionParts { build: x, ..a },
            VersionParts { build: y, ..b },
        ),
{
}

} // verus!
