//! Semantic versions of modules.

use crate::domain::version_order::{build_order, prerelease_order};
use crate::text::{chars_of, decimal, push_chars, push_decimal, string_of};
use vstd::prelude::*;
use vstd::std_specs::convert::TryFromSpecImpl;

verus! {

/// `semver::Error`, carried through as an opaque value.
#[verifier::external_type_specification]
#[verifier::external_body]
pub struct ExSemverError(semver::Error);

/// The fields of a semantic version, as mathematical values.
pub struct VersionParts {
    pub major: nat,
    pub minor: nat,
    pub patch: nat,
    pub pre: Seq<char>,
    pub build: Seq<char>,
}

/// What `semver::Version::parse` makes of `text`: the fields of the version
/// it returns, or `None` where it returns an error.
pub uninterp spec fn semver_parts(text: Seq<char>) -> Option<VersionParts>;

/// `semver` accepts the identifier texts of `parts`: it makes a `Prerelease`
/// of the one and a `BuildMetadata` of the other, and so can compare them.
pub open spec fn identifiers_accepted(parts: VersionParts) -> bool {
    prerelease_order(parts.pre, parts.pre) is Some && build_order(parts.build, parts.build)
        is Some
}

/// A semantic version: three numbers, and the pre-release and build
/// identifiers, which are empty where the version has none. Its identifiers
/// are such as `semver` accepts.
#[derive(Debug, PartialEq, Eq, Hash)]
pub struct ModuleVersion {
    major: u64,
    minor: u64,
    patch: u64,
    pre: String,
    build: String,
}

impl View for ModuleVersion {
    type V = VersionParts;

    closed spec fn view(&self) -> VersionParts {
        VersionParts {
            major: self.major as nat,
            minor: self.minor as nat,
            patch: self.patch as nat,
            pre: self.pre@,
            build: self.build@,
        }
    }
}

/// Calls `semver::Version::parse` and copies the fields of the version it
/// returns. The result is `Ok` exactly where `semver_parts` is `Some`, and
/// then holds those fields; otherwise it is the error of `semver`. The
/// identifiers of a version that `semver` parsed are such as it accepts on
/// their own: it reads them by the grammar by which `Prerelease::new` and
/// `BuildMetadata::new` read a text.
#[verifier::external_body]
fn semver_parse(text: &str) -> (parsed: Result<ModuleVersion, semver::Error>)
    ensures
        parsed is Ok <==> semver_parts(text@) is Some,
        parsed matches Ok(version) ==> Some(version@) == semver_parts(text@),
        parsed matches Ok(version) ==> identifiers_accepted(version@),
{
    semver::Version::parse(text).map(
        |v| ModuleVersion {
            major: v.major,
            minor: v.minor,
            patch: v.patch,
            pre: v.pre.as_str().to_owned(),
            build: v.build.as_str().to_owned(),
        },
    )
}

impl ModuleVersion {
    /// The identifiers of every version are such as `semver` accepts.
    #[verifier::type_invariant]
    pub open spec fn inv(&self) -> bool {
        identifiers_accepted(self@)
    }
}

impl Clone for ModuleVersion {
    fn clone(&self) -> (copy: ModuleVersion)
        ensures
            copy@ == self@,
    {
        proof {
            use_type_invariant(self);
        }
        ModuleVersion {
            major: self.major,
            minor: self.minor,
            patch: self.patch,
            pre: self.pre.clone(),
            build: self.build.clone(),
        }
    }
}

impl TryFrom<&str> for ModuleVersion {
    type Error = semver::Error;

    fn try_from(value: &str) -> (parsed: Result<ModuleVersion, semver::Error>)
        ensures
            parsed is Ok <==> semver_parts(value@) is Some,
            parsed matches Ok(version) ==> Some(version@) == semver_parts(value@),
    {
        semver_parse(value)
    }
}

impl TryFromSpecImpl<&str> for ModuleVersion {
    open spec fn obeys_try_from_spec() -> bool {
        false
    }

    open spec fn try_from_spec(value: &str) -> Result<ModuleVersion, semver::Error> {
        arbitrary()
    }
}

/// The text of a version: the three numbers in decimal, separated by dots,
/// then `-` and the pre-release identifiers if there are any, then `+` and
/// the build identifiers if there are any.
pub open spec fn version_text(parts: VersionParts) -> Seq<char> {
    decimal(parts.major) + seq!['.'] + decimal(parts.minor) + seq!['.'] + decimal(parts.patch) + (
    if parts.pre.len() > 0 {
        seq!['-'] + parts.pre
    } else {
        Seq::empty()
    }) + (if parts.build.len() > 0 {
        seq!['+'] + parts.build
    } else {
        Seq::empty()
    })
}

impl ModuleVersion {
    /// The major number.
    pub fn major(&self) -> (number: u64)
        ensures
            number == self@.major,
    {
        self.major
    }

    /// The minor number.
    pub fn minor(&self) -> (number: u64)
        ensures
            number == self@.minor,
    {
        self.minor
    }

    /// The patch number.
    pub fn patch(&self) -> (number: u64)
        ensures
            number == self@.patch,
    {
        self.patch
    }

    /// The pre-release identifiers, empty where there are none.
    pub fn pre(&self) -> (text: &str)
        ensures
            text@ == self@.pre,
    {
        self.pre.as_str()
    }

    /// The build identifiers, empty where there are none.
    pub fn build(&self) -> (text: &str)
        ensures
            text@ == self@.build,
    {
        self.build.as_str()
    }

    /// The version as text, as `semver` displays it.
    pub fn to_string(&self) -> (text: String)
        ensures
            text@ == version_text(self@),
    {
        let mut out: Vec<char> = Vec::new();
        push_decimal(&mut out, self.major);
        out.push('.');
        push_decimal(&mut out, self.minor);
        out.push('.');
        push_decimal(&mut out, self.patch);
        let ghost numbers = out@;
        assert(numbers =~= decimal(self@.major) + seq!['.'] + decimal(self@.minor) + seq!['.']
            + decimal(self@.patch));
        if !self.pre.as_str().is_empty() {
            out.push('-');
            let pre = chars_of(self.pre.as_str());
            push_chars(&mut out, pre.as_slice());
            assert(out@ =~= numbers + (seq!['-'] + self@.pre));
        } else {
            assert(out@ =~= numbers + Seq::<char>::empty());
        }
        let ghost with_pre = out@;
        if !self.build.as_str().is_empty() {
            out.push('+');
            let build = chars_of(self.build.as_str());
            push_chars(&mut out, build.as_slice());
            assert(out@ =~= with_pre + (seq!['+'] + self@.build));
        } else {
            assert(out@ =~= with_pre + Seq::<char>::empty());
        }
        string_of(out.as_slice())
    }

    /// Parses `value` by the grammar of semantic versions.
    pub fn parse(value: &str) -> (parsed: Result<ModuleVersion, semver::Error>)
        ensures
            parsed is Ok <==> semver_parts(value@) is Some,
            parsed matches Ok(version) ==> Some(version@) == semver_parts(value@),
    {
        semver_parse(value)
    }
}

} // verus!
