//! Version constraints: whether a version, as a connector reports it, meets
//! a PEP 440 specifier.

use crate::error::{ErrorView, MicasaError};
use crate::text::{
    chars_of, concat, lemma_position_bounds, lemma_position_is, position, text_of,
};
use std::str::FromStr;
use vstd::prelude::*;

verus! {

/// Why `pep440_rs` refuses `text` as a version: the message of its parse
/// error, or `None` where it accepts the text.
pub uninterp spec fn version_parse_failure(text: Seq<char>) -> Option<Seq<char>>;

/// Why `pep440_rs` refuses `text` as a list of version specifiers: the
/// message of its parse error, or `None` where it accepts the text.
pub uninterp spec fn specifiers_parse_failure(text: Seq<char>) -> Option<Seq<char>>;

/// Whether the specifiers that `pep440_rs` reads from `specifiers` all match
/// the version that it reads from `version`.
pub uninterp spec fn specifiers_contain(specifiers: Seq<char>, version: Seq<char>) -> bool;

/// Calls `pep440_rs::Version::from_str` on `text` and hands back the parse
/// error's message. Trusted: the result is the one that
/// `version_parse_failure` names.
#[verifier::external_body]
fn version_parse_error(text: &str) -> (failure: Option<String>)
    ensures
        failure.deep_view() == version_parse_failure(text@),
{
    match pep440_rs::Version::from_str(text) {
        Ok(_) => None,
        Err(e) => Some(e.to_string()),
    }
}

/// Calls `pep440_rs::VersionSpecifiers::from_str` on `text` and hands back the
/// parse error's message. Trusted: the result is the one that
/// `specifiers_parse_failure` names.
#[verifier::external_body]
fn specifiers_parse_error(text: &str) -> (failure: Option<String>)
    ensures
        failure.deep_view() == specifiers_parse_failure(text@),
{
    match pep440_rs::VersionSpecifiers::from_str(text) {
        Ok(_) => None,
        Err(e) => Some(e.to_string()),
    }
}

/// Calls `pep440_rs::VersionSpecifiers::contains` on what `pep440_rs` parses
/// from the two texts, both of which it accepts. Trusted: the result is the
/// one that `specifiers_contain` names.
#[verifier::external_body]
fn specifiers_admit(specifiers: &str, version: &str) -> (admitted: bool)
    requires
        specifiers_parse_failure(specifiers@) is None,
        version_parse_failure(version@) is None,
    ensures
        admitted == specifiers_contain(specifiers@, version@),
{
    match (pep440_rs::VersionSpecifiers::from_str(specifiers), pep440_rs::Version::from_str(version)) {
        (Ok(parsed), Ok(candidate)) => parsed.contains(&candidate),
        _ => false,
    }
}

/// `version` up to its first hyphen: a distribution's packaging revision,
/// which follows the hyphen, says nothing of the upstream version.
pub open spec fn normalized(version: Seq<char>) -> Seq<char> {
    version.take(position(version, '-'))
}

/// Normalizing twice is normalizing once.
pub proof fn lemma_normalized_idempotent(version: Seq<char>)
    ensures
        normalized(normalized(version)) == normalized(version),
{
    lemma_position_bounds(version, '-');
    let n = normalized(version);
    assert forall|j: int| 0 <= j < n.len() implies n[j] != '-' by {
        assert(n[j] == version[j]);
    }
    lemma_position_is(n, '-', n.len() as int);
    assert(n.take(n.len() as int) =~= n);
}

/// What the version test answers once `pep440_rs` has been asked: a refused
/// version is reported first, then a refused specifier; otherwise the answer
/// is `admitted`.
pub open spec fn verdict_of(
    version: Seq<char>,
    specifiers: Seq<char>,
    version_failure: Option<Seq<char>>,
    specifiers_failure: Option<Seq<char>>,
    admitted: bool,
) -> Result<bool, ErrorView> {
    match version_failure {
        Some(why) => Err(
            ErrorView::InvalidVersionSpec(version, "Failed to parse version: "@ + why),
        ),
        None => match specifiers_failure {
            Some(why) => Err(
                ErrorView::InvalidVersionSpec(
                    specifiers,
                    "Failed to parse version specifier: "@ + why,
                ),
            ),
            None => Ok(admitted),
        },
    }
}

/// Whether `version` meets `constraint`. Without a constraint every version
/// does. Otherwise the version is normalized and both texts go to
/// `pep440_rs`.
pub open spec fn satisfies(version: Seq<char>, constraint: Option<Seq<char>>) -> Result<
    bool,
    ErrorView,
> {
    match constraint {
        None => Ok(true),
        Some(specifiers) => {
            let candidate = normalized(version);
            verdict_of(
                candidate,
                specifiers,
                version_parse_failure(candidate),
                specifiers_parse_failure(specifiers),
                specifiers_contain(specifiers, candidate),
            )
        },
    }
}

/// What a `Result<bool, MicasaError>` denotes.
pub open spec fn verdict_view(r: Result<bool, MicasaError>) -> Result<bool, ErrorView> {
    match r {
        Ok(b) => Ok(b),
        Err(e) => Err(e@),
    }
}

/// `version` without a distribution's packaging suffix: `7.81.0-1ubuntu1.18`
/// becomes `7.81.0`.
pub fn normalize_version<'a>(version: &'a str) -> (out: &'a str)
    ensures
        out@ == normalized(version@),
{
    let x = chars_of(version);
    let mut i: usize = 0;
    while i < x.len() && x[i] != '-'
        invariant
            i <= x.len(),
            forall|j: int| 0 <= j < i ==> x@[j] != '-',
        decreases x.len() - i,
    {
        i += 1;
    }
    proof {
        lemma_position_is(version@, '-', i as int);
    }
    version.substring_char(0, i)
}

/// The answer of the version test, given what `pep440_rs` said of the
/// normalized version and of the specifiers.
pub fn verdict(
    version: &str,
    specifiers: &str,
    version_failure: Option<String>,
    specifiers_failure: Option<String>,
    admitted: bool,
) -> (r: Result<bool, MicasaError>)
    ensures
        verdict_view(r) == verdict_of(
            version@,
            specifiers@,
            version_failure.deep_view(),
            specifiers_failure.deep_view(),
            admitted,
        ),
{
    match version_failure {
        Some(why) => Err(
            MicasaError::InvalidVersionSpec(
                version.to_owned(),
                concat("Failed to parse version: ", why.as_str()),
            ),
        ),
        None => match specifiers_failure {
            Some(why) => Err(
                MicasaError::InvalidVersionSpec(
                    specifiers.to_owned(),
                    concat("Failed to parse version specifier: ", why.as_str()),
                ),
            ),
            None => Ok(admitted),
        },
    }
}

/// Whether `available_version` meets `version_spec`.
///
/// Without a specifier the answer is `Ok(true)`. A version or a specifier
/// that cannot be parsed is an `InvalidVersionSpec` error that names the text
/// and the reason; it is never taken for "no constraint" or "not satisfied".
pub fn satisfies_requirement(available_version: &str, version_spec: Option<&str>) -> (r: Result<
    bool,
    MicasaError,
>)
    ensures
        verdict_view(r) == satisfies(available_version@, text_of(version_spec)),
        version_spec is None ==> r == Ok::<bool, MicasaError>(true),
{
    match version_spec {
        None => Ok(true),
        Some(specifiers) => {
            let candidate = normalize_version(available_version);
            let version_failure = version_parse_error(candidate);
            let specifiers_failure = specifiers_parse_error(specifiers);
            let admitted = if version_failure.is_none() && specifiers_failure.is_none() {
                specifiers_admit(specifiers, candidate)
            } else {
                false
            };
            verdict(candidate, specifiers, version_failure, specifiers_failure, admitted)
        },
    }
}

/// Every version meets the absent constraint.
pub proof fn lemma_unconstrained(version: Seq<char>)
    ensures
        satisfies(version, None) == Ok::<bool, ErrorView>(true),
{
}

/// A packaging suffix does not change the answer: a version and its
/// normalized form meet the same constraints and fail with the same errors.
pub proof fn lemma_suffix_irrelevant(version: Seq<char>, constraint: Option<Seq<char>>)
    ensures
        satisfies(version, constraint) == satisfies(normalized(version), constraint),
{
    lemma_normalized_idempotent(version);
}

} // verus!
