//! A connector may know a package under several names. It asks for each of
//! them; this module says what the answers add up to.

use crate::error::{ErrorView, MicasaError};
use crate::package_manager::{PackageInfo, PackageInfoView};
use crate::text::concat;
use vstd::prelude::*;

verus! {

/// What a connector's tool says of a package under one name.
#[derive(Debug, Clone)]
pub struct Facts {
    pub installed_version: Option<String>,
    pub available_version: Option<String>,
    pub description: Option<String>,
}

/// What a `Facts` denotes.
pub struct FactsView {
    pub installed_version: Option<Seq<char>>,
    pub available_version: Option<Seq<char>>,
    pub description: Option<Seq<char>>,
}

impl View for Facts {
    type V = FactsView;

    open spec fn view(&self) -> FactsView {
        FactsView {
            installed_version: self.installed_version.deep_view(),
            available_version: self.available_version.deep_view(),
            description: self.description.deep_view(),
        }
    }
}

/// How the query for one candidate name ended.
#[derive(Debug)]
pub enum Answer {
    /// The tool answered.
    Known(Facts),
    /// The tool failed.
    Failed(MicasaError),
    /// The tool answered, and its answer could not be read.
    Unreadable,
}

/// What an `Answer` denotes.
pub enum AnswerView {
    Known(FactsView),
    Failed(ErrorView),
    Unreadable,
}

impl View for Answer {
    type V = AnswerView;

    open spec fn view(&self) -> AnswerView {
        match self {
            Answer::Known(facts) => AnswerView::Known(facts@),
            Answer::Failed(e) => AnswerView::Failed(e@),
            Answer::Unreadable => AnswerView::Unreadable,
        }
    }
}

/// What each element of `answers` denotes.
pub open spec fn answer_views(answers: Seq<Answer>) -> Seq<AnswerView> {
    Seq::new(answers.len(), |i: int| answers[i]@)
}

/// The index of the first element of `s` for which `p` holds; the length of
/// `s` if there is none.
pub open spec fn first_where<T>(s: Seq<T>, p: spec_fn(T) -> bool) -> int
    decreases s.len(),
{
    if s.len() == 0 || p(s[0]) {
        0
    } else {
        1 + first_where(s.drop_first(), p)
    }
}

pub proof fn lemma_first_where_is<T>(s: Seq<T>, p: spec_fn(T) -> bool, at: int)
    requires
        0 <= at <= s.len(),
        forall|j: int| 0 <= j < at ==> !p(#[trigger] s[j]),
        at < s.len() ==> p(s[at]),
    ensures
        first_where(s, p) == at,
    decreases s.len(),
{
    if s.len() == 0 || p(s[0]) {
        if at > 0 {
            assert(!p(s[0]));
        }
    } else {
        let rest = s.drop_first();
        assert forall|j: int| 0 <= j < at - 1 implies !p(#[trigger] rest[j]) by {
            assert(rest[j] == s[j + 1]);
        }
        lemma_first_where_is(rest, p, at - 1);
    }
}

/// Whether the answer shows the package installed.
pub open spec fn shows_installed(answer: AnswerView) -> bool {
    answer matches AnswerView::Known(facts) && facts.installed_version is Some
}

/// Whether the answer shows the package available.
pub open spec fn shows_available(answer: AnswerView) -> bool {
    answer matches AnswerView::Known(facts) && facts.available_version is Some
}

/// Whether the answer is a failure of the tool.
pub open spec fn is_failure(answer: AnswerView) -> bool {
    answer is Failed
}

/// What the connector named `source` reports of `package`, given the answers
/// for its candidate names in order: the first answer that shows it
/// installed; else the first that shows it available; else the first
/// failure; and a failure of its own where there was none.
pub open spec fn chosen_info(package: Seq<char>, source: Seq<char>, answers: Seq<AnswerView>) -> Result<
    PackageInfoView,
    ErrorView,
> {
    let installed = first_where(answers, |a: AnswerView| shows_installed(a));
    let available = first_where(answers, |a: AnswerView| shows_available(a));
    let failed = first_where(answers, |a: AnswerView| is_failure(a));
    if 0 <= installed < answers.len() {
        Ok(
            PackageInfoView {
                name: package,
                installed_version: answers[installed]->Known_0.installed_version,
                available_version: answers[installed]->Known_0.available_version,
                description: answers[installed]->Known_0.description,
                source,
            },
        )
    } else if 0 <= available < answers.len() {
        Ok(
            PackageInfoView {
                name: package,
                installed_version: None,
                available_version: answers[available]->Known_0.available_version,
                description: answers[available]->Known_0.description,
                source,
            },
        )
    } else if 0 <= failed < answers.len() {
        Err(answers[failed]->Failed_0)
    } else {
        Err(ErrorView::CommandExecutionFailed("No information found for package: "@ + package))
    }
}

/// What is looked for among the answers.
#[derive(Clone, Copy, PartialEq, Eq, Structural)]
enum Wanted {
    Installed,
    Available,
    Failure,
}

impl Wanted {
    spec fn test(self) -> spec_fn(AnswerView) -> bool {
        match self {
            Wanted::Installed => |a: AnswerView| shows_installed(a),
            Wanted::Available => |a: AnswerView| shows_available(a),
            Wanted::Failure => |a: AnswerView| is_failure(a),
        }
    }
}

/// The place of the first answer of the wanted kind.
fn first_of(answers: &Vec<Answer>, wanted: Wanted) -> (out: Option<usize>)
    ensures
        ({
            let p = wanted.test();
            match out {
                Some(at) => at < answers.len() && first_where(answer_views(answers@), p) == at && p(
                    answers@[at as int]@,
                ),
                None => first_where(answer_views(answers@), p) == answers.len(),
            }
        }),
{
    let ghost all = answer_views(answers@);
    let ghost p = wanted.test();
    let mut i: usize = 0;
    while i < answers.len()
        invariant
            i <= answers.len(),
            all == answer_views(answers@),
            p == wanted.test(),
            forall|j: int| 0 <= j < i ==> !p(#[trigger] all[j]),
        decreases answers.len() - i,
    {
        assert(all[i as int] == answers@[i as int]@);
        let hit = match &answers[i] {
            Answer::Known(facts) => (wanted == Wanted::Installed
                && facts.installed_version.is_some()) || (wanted == Wanted::Available
                && facts.available_version.is_some()),
            Answer::Failed(_) => wanted == Wanted::Failure,
            Answer::Unreadable => false,
        };
        if hit {
            proof {
                lemma_first_where_is(all, p, i as int);
            }
            return Some(i);
        }
        i += 1;
    }
    proof {
        lemma_first_where_is(all, p, i as int);
    }
    None
}

fn copy_text(text: &Option<String>) -> (out: Option<String>)
    ensures
        out.deep_view() == text.deep_view(),
{
    match text {
        Some(s) => Some(s.clone()),
        None => None,
    }
}

/// The place of the first candidate that is installed, if one is.
pub fn installed_candidate(answers: &Vec<Answer>) -> (out: Option<usize>)
    ensures
        match out {
            Some(at) => at < answers.len() && first_where(
                answer_views(answers@),
                |a: AnswerView| shows_installed(a),
            ) == at,
            None => first_where(answer_views(answers@), |a: AnswerView| shows_installed(a))
                == answers.len(),
        },
{
    first_of(answers, Wanted::Installed)
}

/// What the connector named `source` reports of `package_name`, given the
/// answers for its candidate names in order.
pub fn choose_info(package_name: &str, source: &str, answers: &Vec<Answer>) -> (r: Result<
    PackageInfo,
    MicasaError,
>)
    ensures
        match r {
            Ok(info) => chosen_info(package_name@, source@, answer_views(answers@)) == Ok::<
                PackageInfoView,
                ErrorView,
            >(info@),
            Err(e) => chosen_info(package_name@, source@, answer_views(answers@)) == Err::<
                PackageInfoView,
                ErrorView,
            >(e@),
        },
{
    let ghost all = answer_views(answers@);
    match first_of(answers, Wanted::Installed) {
        Some(at) => {
            assert(all[at as int] == answers@[at as int]@);
            match &answers[at] {
                Answer::Known(facts) => {
                    return Ok(
                        PackageInfo {
                            name: package_name.to_owned(),
                            installed_version: copy_text(&facts.installed_version),
                            available_version: copy_text(&facts.available_version),
                            description: copy_text(&facts.description),
                            source: source.to_owned(),
                        },
                    );
                },
                _ => {},
            }
        },
        None => {},
    }
    match first_of(answers, Wanted::Available) {
        Some(at) => {
            assert(all[at as int] == answers@[at as int]@);
            match &answers[at] {
                Answer::Known(facts) => {
                    return Ok(
                        PackageInfo {
                            name: package_name.to_owned(),
                            installed_version: None,
                            available_version: copy_text(&facts.available_version),
                            description: copy_text(&facts.description),
                            source: source.to_owned(),
                        },
                    );
                },
                _ => {},
            }
        },
        None => {},
    }
    match first_of(answers, Wanted::Failure) {
        Some(at) => {
            assert(all[at as int] == answers@[at as int]@);
            match &answers[at] {
                Answer::Failed(e) => {
                    return Err(e.duplicate());
                },
                _ => {},
            }
        },
        None => {},
    }
    Err(
        MicasaError::CommandExecutionFailed(
            concat("No information found for package: ", package_name),
        ),
    )
}

/// The candidate to remove: the first that is installed, the answers being
/// those for `candidates` in order. It is a failure if none is installed, or
/// if the answer that shows it has no candidate beside it.
pub fn removal_target(package_name: &str, candidates: &Vec<String>, answers: &Vec<Answer>) -> (r:
    Result<String, MicasaError>)
    ensures
        ({
            let at = first_where(answer_views(answers@), |a: AnswerView| shows_installed(a));
            match r {
                Ok(target) => 0 <= at < answers.len() && at < candidates.len() && target@
                    == candidates@[at]@,
                Err(e) => !(at < answers.len() && at < candidates.len()) && e@
                    == ErrorView::CommandExecutionFailed(
                    "Package "@ + package_name@ + " is not installed"@,
                ),
            }
        }),
{
    match installed_candidate(answers) {
        Some(at) if at < candidates.len() => Ok(candidates[at].clone()),
        _ => {
            let head = concat("Package ", package_name);
            Err(MicasaError::CommandExecutionFailed(concat(head.as_str(), " is not installed")))
        },
    }
}

} // verus!
