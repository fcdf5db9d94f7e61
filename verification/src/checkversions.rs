//! Checking that the tools this library leans on are installed in versions
//! that it can work with.
//!
//! A tool is asked for its version, and answers with a line such as
//! `Python 3.11.4`. The version is what follows the expected prefix, with the
//! white space around it taken off and cut before its third dot.

use crate::text::{chars_of, skip_spaces, skip_white, string_of, trim_back, trim_white};
use crate::trusted::{requirement_admits, semver_admits};
use vstd::prelude::*;
use vstd::string::StringExecFns;

verus! {

/// What came of asking a tool for its version.
#[derive(Debug)]
pub enum VersionProbe {
    /// There is no such tool.
    NotFound,
    /// The tool could not be run, or its answer could not be read.
    Failed(String),
    /// The tool printed this.
    Printed(String),
}

/// What a `VersionProbe` holds, mathematically.
pub enum Probed {
    NotFound,
    Failed(Seq<char>),
    Printed(Seq<char>),
}

impl View for VersionProbe {
    type V = Probed;

    open spec fn view(&self) -> Probed {
        match self {
            VersionProbe::NotFound => Probed::NotFound,
            VersionProbe::Failed(reason) => Probed::Failed(reason@),
            VersionProbe::Printed(text) => Probed::Printed(text@),
        }
    }
}

/// Why a tool does not pass the check.
#[derive(Debug)]
pub enum VersionError {
    /// The tool is not installed.
    NotFound { prog: String },
    /// The tool's answer holds no version.
    ParseFailure,
    /// The tool could not be run, or its answer could not be read.
    IoErr(String),
    /// The tool is installed in a version that does not meet the requirement.
    BadVersion { prog: String, version: String, version_requirement: String },
}

/// What a `VersionError` holds, mathematically.
pub enum VersionFault {
    NotFound { prog: Seq<char> },
    ParseFailure,
    IoErr(Seq<char>),
    BadVersion { prog: Seq<char>, version: Seq<char>, version_requirement: Seq<char> },
}

impl View for VersionError {
    type V = VersionFault;

    open spec fn view(&self) -> VersionFault {
        match self {
            VersionError::NotFound { prog } => VersionFault::NotFound { prog: prog@ },
            VersionError::ParseFailure => VersionFault::ParseFailure,
            VersionError::IoErr(reason) => VersionFault::IoErr(reason@),
            VersionError::BadVersion { prog, version, version_requirement } => {
                VersionFault::BadVersion {
                    prog: prog@,
                    version: version@,
                    version_requirement: version_requirement@,
                }
            },
        }
    }
}

/// The message of a fault, as it is shown to the user.
pub open spec fn fault_message(fault: VersionFault) -> Seq<char> {
    match fault {
        VersionFault::NotFound { prog } => "failed to find "@ + prog
            + ". check that it's installed and on your PATH."@,
        VersionFault::ParseFailure => "failed to parse version"@,
        VersionFault::IoErr(reason) => reason,
        VersionFault::BadVersion { prog, version, version_requirement } => prog + " "@ + version
            + " doesn't satisfy required version "@ + version_requirement,
    }
}

impl VersionError {
    /// The message of this error, as it is shown to the user.
    pub fn message(&self) -> (text: String)
        ensures
            text@ == fault_message(self@),
    {
        match self {
            VersionError::NotFound { prog } => {
                let mut text = "failed to find ".to_owned();
                text.append(prog.as_str());
                text.append(". check that it's installed and on your PATH.");
                text
            },
            VersionError::ParseFailure => "failed to parse version".to_owned(),
            VersionError::IoErr(reason) => reason.clone(),
            VersionError::BadVersion { prog, version, version_requirement } => {
                let mut text = prog.clone();
                text.append(" ");
                text.append(version.as_str());
                text.append(" doesn't satisfy required version ");
                text.append(version_requirement.as_str());
                text
            },
        }
    }
}

/// `s` begins with `prefix`.
pub open spec fn starts_with(s: Seq<char>, prefix: Seq<char>) -> bool {
    prefix.len() <= s.len() && s.subrange(0, prefix.len() as int) == prefix
}

/// The place of the `dots`-th dot at or after `from`, or the length of `s`
/// where there are fewer.
pub open spec fn dot_place(s: Seq<char>, from: int, dots: int) -> int
    decreases s.len() - from,
{
    if from < 0 || from >= s.len() {
        s.len() as int
    } else if s[from] != '.' {
        dot_place(s, from + 1, dots)
    } else if dots <= 1 {
        from
    } else {
        dot_place(s, from + 1, dots - 1)
    }
}

/// The version that a tool's answer holds behind `prefix`: the rest of the
/// answer without the white space around it, up to its third dot.
pub open spec fn version_in(answer: Seq<char>, prefix: Seq<char>) -> Option<Seq<char>> {
    if starts_with(answer, prefix) {
        let from = skip_spaces(answer, prefix.len() as int, answer.len() as int);
        let to = trim_back(answer, from, answer.len() as int);
        let rest = answer.subrange(from, to);
        Some(rest.subrange(0, dot_place(rest, 0, 3)))
    } else {
        None
    }
}

/// The version of a tool, from what came of asking it.
pub open spec fn version_of(prog: Seq<char>, prefix: Seq<char>, probe: Probed) -> Result<
    Seq<char>,
    VersionFault,
> {
    match probe {
        Probed::NotFound => Err(VersionFault::NotFound { prog }),
        Probed::Failed(reason) => Err(VersionFault::IoErr(reason)),
        Probed::Printed(answer) => match version_in(answer, prefix) {
            Some(version) => Ok(version),
            None => Err(VersionFault::ParseFailure),
        },
    }
}

/// `dot_place` stays within the text.
pub proof fn lemma_dot_place(s: Seq<char>, from: int, dots: int)
    requires
        0 <= from <= s.len(),
    ensures
        from <= dot_place(s, from, dots) <= s.len(),
    decreases s.len() - from,
{
    if from < s.len() {
        lemma_dot_place(s, from + 1, dots);
        lemma_dot_place(s, from + 1, dots - 1);
    }
}

fn has_prefix(chars: &Vec<char>, prefix: &Vec<char>) -> (r: bool)
    ensures
        r == starts_with(chars@, prefix@),
{
    if prefix.len() > chars.len() {
        return false;
    }
    let mut k: usize = 0;
    while k < prefix.len()
        invariant
            k <= prefix@.len() <= chars@.len(),
            chars@.subrange(0, k as int) == prefix@.subrange(0, k as int),
        decreases prefix@.len() - k,
    {
        if chars[k] != prefix[k] {
            assert(chars@.subrange(0, prefix@.len() as int)[k as int] != prefix@[k as int]);
            return false;
        }
        k = k + 1;
        assert(chars@.subrange(0, k as int) =~= chars@.subrange(0, k - 1).push(chars@[k - 1]));
        assert(prefix@.subrange(0, k as int) =~= prefix@.subrange(0, k - 1).push(prefix@[k - 1]));
    }
    assert(prefix@.subrange(0, prefix@.len() as int) =~= prefix@);
    true
}

fn third_dot(chars: &Vec<char>, from: usize, to: usize) -> (r: usize)
    requires
        from <= to <= chars.len(),
    ensures
        r - from == dot_place(chars@.subrange(from as int, to as int), 0, 3),
        from <= r <= to,
{
    let ghost rest = chars@.subrange(from as int, to as int);
    let mut left: usize = 3;
    let mut k: usize = from;
    proof {
        lemma_dot_place(rest, 0, 3);
    }
    while k < to
        invariant
            from <= k <= to <= chars.len(),
            1 <= left <= 3,
            rest == chars@.subrange(from as int, to as int),
            dot_place(rest, 0, 3) == dot_place(rest, k - from, left as int),
        decreases to - k,
    {
        assert(rest[k - from] == chars@[k as int]);
        if chars[k] == '.' {
            if left == 1 {
                return k;
            }
            left = left - 1;
        }
        k = k + 1;
    }
    to
}

/// The version of `prog`, from what came of asking it; `prefix` is what its
/// answer is expected to begin with.
pub fn version(prog: &str, prefix: &str, probe: &VersionProbe) -> (r: Result<String, VersionError>)
    ensures
        match r {
            Ok(version) => version_of(prog@, prefix@, probe@) == Ok::<Seq<char>, VersionFault>(
                version@,
            ),
            Err(error) => version_of(prog@, prefix@, probe@) == Err::<Seq<char>, VersionFault>(
                error@,
            ),
        },
{
    match probe {
        VersionProbe::NotFound => Err(VersionError::NotFound { prog: prog.to_owned() }),
        VersionProbe::Failed(reason) => Err(VersionError::IoErr(reason.clone())),
        VersionProbe::Printed(answer) => {
            let chars = chars_of(answer.as_str());
            let lead = chars_of(prefix);
            if !has_prefix(&chars, &lead) {
                return Err(VersionError::ParseFailure);
            }
            let n = chars.len();
            let from = skip_white(&chars, lead.len(), n);
            let to = trim_white(&chars, from, n);
            let end = third_dot(&chars, from, to);
            let version = string_of(&chars, from, end);
            assert(chars@.subrange(from as int, end as int) =~= chars@.subrange(
                from as int,
                to as int,
            ).subrange(0, end - from));
            Ok(version)
        },
    }
}

/// Whether a tool passes, given its version and whether that version meets
/// the requirement; `None` says that one of the two is not well written.
pub open spec fn judged(
    prog: Seq<char>,
    version: Seq<char>,
    requirement: Seq<char>,
    admitted: Option<bool>,
) -> Result<(), VersionFault> {
    match admitted {
        Some(true) => Ok(()),
        Some(false) => Err(
            VersionFault::BadVersion { prog, version, version_requirement: requirement },
        ),
        None => Err(VersionFault::ParseFailure),
    }
}

/// Whether a tool passes, from what came of asking it for its version.
pub open spec fn checked(
    prog: Seq<char>,
    prefix: Seq<char>,
    requirement: Seq<char>,
    probe: Probed,
) -> Result<(), VersionFault> {
    match version_of(prog, prefix, probe) {
        Ok(version) => judged(prog, version, requirement, semver_admits(requirement, version)),
        Err(fault) => Err(fault),
    }
}

/// The view of what a check returned.
pub open spec fn verdict(r: Result<(), VersionError>) -> Result<(), VersionFault> {
    match r {
        Ok(()) => Ok(()),
        Err(error) => Err(error@),
    }
}

/// Judges a tool by its version, given whether that version meets the
/// requirement.
pub fn judge_version(prog: &str, version: String, requirement: &str, admitted: Option<bool>) -> (r:
    Result<(), VersionError>)
    ensures
        verdict(r) == judged(prog@, version@, requirement@, admitted),
{
    match admitted {
        Some(true) => Ok(()),
        Some(false) => Err(
            VersionError::BadVersion {
                prog: prog.to_owned(),
                version,
                version_requirement: requirement.to_owned(),
            },
        ),
        None => Err(VersionError::ParseFailure),
    }
}

/// Checks one tool: reads its version from what came of asking it, and holds
/// the version against the requirement.
pub fn check_version(prog: &str, prefix: &str, requirement: &str, probe: &VersionProbe) -> (r:
    Result<(), VersionError>)
    ensures
        verdict(r) == checked(prog@, prefix@, requirement@, probe@),
{
    match version(prog, prefix, probe) {
        Ok(found) => {
            let admitted = requirement_admits(requirement, found.as_str());
            judge_version(prog, found, requirement, admitted)
        },
        Err(error) => Err(error),
    }
}

/// What the check of both tools comes to: the fault of the first that fails.
pub open spec fn both_checked(python: Probed, git: Probed) -> Result<(), VersionFault> {
    match checked("python"@, "Python "@, "^3.10"@, python) {
        Ok(()) => checked("git"@, "git version "@, "^2.40"@, git),
        Err(fault) => Err(fault),
    }
}

/// Checks that Python and git are installed in versions that the library can
/// work with, from what came of asking each for its version.
pub fn check_versions(python: &VersionProbe, git: &VersionProbe) -> (r: Result<(), VersionError>)
    ensures
        verdict(r) == both_checked(python@, git@),
{
    match check_version("python", "Python ", "^3.10", python) {
        Ok(()) => check_version("git", "git version ", "^2.40", git),
        Err(error) => Err(error),
    }
}

} // verus!
