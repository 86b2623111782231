use vstd::prelude::*;

use crate::error::SwitchError;
use crate::split::{tokens, split_pieces};

verus! {

/// The mathematical content of a host version: the numeric triple and the
/// pre-release identifier (empty when the version is a plain release).
pub ghost struct VersionView {
    pub major: int,
    pub minor: int,
    pub patch: int,
    pub pre: Seq<char>,
}

/// A semantic version of the host application, as far as the schema choice
/// needs it: build metadata plays no part in precedence and is not kept.
#[derive(Debug, PartialEq, Eq)]
pub struct Version {
    pub major: u64,
    pub minor: u64,
    pub patch: u64,
    pub pre: String,
}

impl View for Version {
    type V = VersionView;

    open spec fn view(&self) -> VersionView {
        VersionView {
            major: self.major as int,
            minor: self.minor as int,
            patch: self.patch as int,
            pre: self.pre@,
        }
    }
}

/// The version that a well-formed semantic version text denotes, and
/// nothing for any other text.
pub uninterp spec fn semver_of(s: Seq<char>) -> Option<VersionView>;

/// Relies on semver::Version::parse: the result is a function of the text
/// alone; major, minor, patch and the pre-release identifier are carried
/// over, and build metadata (which takes no part in precedence) is dropped.
#[verifier::external_body]
fn parse_semver(s: &str) -> (r: Result<Version, semver::Error>)
    ensures
        r is Ok <==> semver_of(s@) is Some,
        r matches Ok(v) ==> semver_of(s@) == Option::Some(v@),
{
    match semver::Version::parse(s) {
        Ok(v) => Ok(
            Version {
                major: v.major,
                minor: v.minor,
                patch: v.patch,
                pre: v.pre.as_str().to_string(),
            },
        ),
        Err(e) => Err(e),
    }
}

#[verifier::external_type_specification]
#[verifier::external_body]
pub struct ExSemverError(semver::Error);

/// The token of the version output that carries the version: the second
/// whitespace-delimited token. An output with fewer than two tokens
/// carries none.
pub open spec fn spec_version_token(s: Seq<char>) -> Option<Seq<char>> {
    let ts = tokens(s);
    if ts.len() >= 2 {
        Option::Some(ts[1])
    } else {
        Option::None
    }
}

/// The host version that a probe output line denotes, when its version
/// token is a well-formed semantic version.
pub open spec fn spec_version_of_output(s: Seq<char>) -> Option<VersionView> {
    match spec_version_token(s) {
        Option::Some(t) => semver_of(t),
        Option::None => Option::None,
    }
}

/// Reads the host version out of the version-reporting invocation's output.
/// Fails with `ParseError` exactly when the output has no second
/// whitespace-delimited token or that token is not a semantic version.
pub fn parse_version_output(s: &str) -> (r: Result<Version, SwitchError>)
    ensures
        match r {
            Ok(v) => spec_version_of_output(s@) == Option::Some(v@),
            Err(e) => e == SwitchError::ParseError && spec_version_of_output(s@) is None,
        },
{
    let ts = split_pieces(s, false);
    let token: &String = if ts.len() >= 2 {
        &ts[1]
    } else {
        return Err(SwitchError::ParseError);
    };
    match parse_semver(token.as_str()) {
        Ok(v) => Ok(v),
        Err(_) => Err(SwitchError::ParseError),
    }
}

/// Where the import list lives in the configuration document.
#[derive(Debug, Clone, Copy, PartialEq, Eq, Structural)]
pub enum Schema {
    /// Top-level `import` key: host versions before 0.14.0.
    Legacy,
    /// `import` nested under the `general` table: host versions from 0.14.0
    /// on.
    General,
}

/// Whether the host version is at least 0.14.0 under semantic-version
/// precedence: the triple is above 0.14.0, or equal to it with no
/// pre-release identifier (0.14.0-rc precedes 0.14.0).
pub open spec fn spec_uses_general(v: VersionView) -> bool {
    ||| v.major > 0
    ||| v.major == 0 && v.minor > 14
    ||| v.major == 0 && v.minor == 14 && v.patch > 0
    ||| v.major == 0 && v.minor == 14 && v.patch == 0 && v.pre.len() == 0
}

/// The schema that a host version selects.
pub open spec fn spec_schema_for(v: VersionView) -> Schema {
    if spec_uses_general(v) {
        Schema::General
    } else {
        Schema::Legacy
    }
}

pub fn schema_for(v: &Version) -> (s: Schema)
    ensures
        s == spec_schema_for(v@),
{
    let general = v.major > 0 || (v.major == 0 && v.minor > 14) || (v.major == 0 && v.minor == 14
        && v.patch > 0) || (v.major == 0 && v.minor == 14 && v.patch == 0 && v.pre.as_str().unicode_len()
        == 0);
    if general {
        Schema::General
    } else {
        Schema::Legacy
    }
}

} // verus!
