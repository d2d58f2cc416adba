//! Which crates a run downloads, decided from the command line.

use vstd::prelude::*;

verus! {

/// How the top crates are ranked.
#[derive(Debug, PartialEq, Eq, Structural)]
pub enum TopCategory {
    Downloads,
    Sizes,
}

/// Which crates of the index a run downloads and analyses.
#[derive(Debug)]
pub enum DownloadPlan {
    /// Every crate of the index.
    All,
    /// The crates recorded as failed by an earlier run.
    FromErrors,
    /// The crates with these names.
    ByCrates(Vec<String>),
    /// The crates that depend on one of these names.
    ByDependencies(Vec<String>),
    /// The first crates of the index, this many.
    ByNumber(usize),
    /// The top crates of a ranking, this many.
    TopN(TopCategory, usize),
}

/// Why the command line selects no crates.
#[derive(Debug, PartialEq, Eq, Structural)]
pub enum PlanError {
    /// `--top` without `-n`.
    TopWithoutNumber,
    /// None of `-a`, `-e`, `-n` and a list of crate names.
    NothingSelected,
    /// `--top` names no known ranking.
    InvalidTopCategory,
    /// Both `-n` and a list of crate names.
    NumberWithCrates,
}

/// The text of `s` in lower case, as `str::to_lowercase` gives it.
pub uninterp spec fn lowercase_of(s: Seq<char>) -> Seq<char>;

/// Calls `str::to_lowercase`. Trusted: the result is `lowercase_of` of the argument;
/// what that is on given letters is left to the standard library.
#[verifier::external_body]
fn to_lowercase(s: &str) -> (lower: String)
    ensures
        lower@ == lowercase_of(s@),
{
    s.to_lowercase()
}

/// The plan that the command line asks for, with the ranking name already in lower case.
pub open spec fn plan_of(
    num: Option<usize>,
    crates: Option<Vec<String>>,
    all: bool,
    errors: bool,
    deps: bool,
    top_lower: Option<Seq<char>>,
) -> Result<DownloadPlan, PlanError> {
    match (num, crates) {
        (None, None) => if all {
            Ok(DownloadPlan::All)
        } else if errors {
            Ok(DownloadPlan::FromErrors)
        } else if top_lower is Some {
            Err(PlanError::TopWithoutNumber)
        } else {
            Err(PlanError::NothingSelected)
        },
        (None, Some(names)) => if deps {
            Ok(DownloadPlan::ByDependencies(names))
        } else {
            Ok(DownloadPlan::ByCrates(names))
        },
        (Some(n), None) => match top_lower {
            None => Ok(DownloadPlan::ByNumber(n)),
            Some(t) => if t == "downloads"@ {
                Ok(DownloadPlan::TopN(TopCategory::Downloads, n))
            } else if t == "sizes"@ {
                Ok(DownloadPlan::TopN(TopCategory::Sizes, n))
            } else {
                Err(PlanError::InvalidTopCategory)
            },
        },
        (Some(_), Some(_)) => Err(PlanError::NumberWithCrates),
    }
}

/// Decides the plan from the command line, given the ranking name in lower case.
///
/// `num` is `-n`, `crates` the list of crate names, `all`, `errors`, `deps` the
/// flags `-a`, `-e`, `-d`, and `top_lower` the value of `--top` in lower case.
pub fn plan_download_lowered(
    num: Option<usize>,
    crates: Option<Vec<String>>,
    all: bool,
    errors: bool,
    deps: bool,
    top_lower: Option<String>,
) -> (plan: Result<DownloadPlan, PlanError>)
    ensures
        plan == plan_of(
            num,
            crates,
            all,
            errors,
            deps,
            match top_lower {
                Some(t) => Some(t@),
                None => None,
            },
        ),
{
    match (num, crates) {
        (None, None) => {
            if all {
                Ok(DownloadPlan::All)
            } else if errors {
                Ok(DownloadPlan::FromErrors)
            } else if top_lower.is_some() {
                Err(PlanError::TopWithoutNumber)
            } else {
                Err(PlanError::NothingSelected)
            }
        },
        (None, Some(names)) => {
            if deps {
                Ok(DownloadPlan::ByDependencies(names))
            } else {
                Ok(DownloadPlan::ByCrates(names))
            }
        },
        (Some(n), None) => {
            match top_lower {
                None => Ok(DownloadPlan::ByNumber(n)),
                Some(t) => {
                    let downloads = String::from_str("downloads");
                    let sizes = String::from_str("sizes");
                    if t == downloads {
                        Ok(DownloadPlan::TopN(TopCategory::Downloads, n))
                    } else if t == sizes {
                        Ok(DownloadPlan::TopN(TopCategory::Sizes, n))
                    } else {
                        Err(PlanError::InvalidTopCategory)
                    }
                },
            }
        },
        (Some(_), Some(_)) => Err(PlanError::NumberWithCrates),
    }
}

/// Decides the plan from the command line; `top` is the value of `--top` as given.
pub fn plan_download(
    num: Option<usize>,
    crates: Option<Vec<String>>,
    all: bool,
    errors: bool,
    deps: bool,
    top: Option<String>,
) -> (plan: Result<DownloadPlan, PlanError>)
    ensures
        plan == plan_of(
            num,
            crates,
            all,
            errors,
            deps,
            match top {
                Some(t) => Some(lowercase_of(t@)),
                None => None,
            },
        ),
{
    let top_lower = match top {
        Some(t) => Some(to_lowercase(t.as_str())),
        None => None,
    };
    plan_download_lowered(num, crates, all, errors, deps, top_lower)
}

/// With no `-n` and a list of crate names, the run downloads the crates that depend
/// on those names exactly when `-d` is given, and the named crates themselves
/// otherwise; `-a`, `-e` and `--top` change nothing.
pub proof fn law_crate_list_plan(
    names: Vec<String>,
    all: bool,
    errors: bool,
    deps: bool,
    top_lower: Option<Seq<char>>,
)
    ensures
        deps ==> plan_of(None, Some(names), all, errors, deps, top_lower) == Ok::<
            DownloadPlan,
            PlanError,
        >(DownloadPlan::ByDependencies(names)),
        !deps ==> plan_of(None, Some(names), all, errors, deps, top_lower) == Ok::<
            DownloadPlan,
            PlanError,
        >(DownloadPlan::ByCrates(names)),
{
}

/// `-n` together with a list of crate names is always refused, whatever else is given.
pub proof fn law_number_with_crates_refused(
    n: usize,
    names: Vec<String>,
    all: bool,
    errors: bool,
    deps: bool,
    top_lower: Option<Seq<char>>,
)
    ensures
        plan_of(Some(n), Some(names), all, errors, deps, top_lower) == Err::<
            DownloadPlan,
            PlanError,
        >(PlanError::NumberWithCrates),
{
}

/// `-n` alone downloads that many crates; with `--top` it ranks them by the named
/// category, and any category other than `downloads` and `sizes` is refused. `-a`,
/// `-e` and `-d` change nothing.
pub proof fn law_number_plan(n: usize, all: bool, errors: bool, deps: bool, top: Seq<char>)
    ensures
        plan_of(Some(n), None, all, errors, deps, None) == Ok::<DownloadPlan, PlanError>(
            DownloadPlan::ByNumber(n),
        ),
        top == "downloads"@ ==> plan_of(Some(n), None, all, errors, deps, Some(top)) == Ok::<
            DownloadPlan,
            PlanError,
        >(DownloadPlan::TopN(TopCategory::Downloads, n)),
        top == "sizes"@ ==> plan_of(Some(n), None, all, errors, deps, Some(top)) == Ok::<
            DownloadPlan,
            PlanError,
        >(DownloadPlan::TopN(TopCategory::Sizes, n)),
        top != "downloads"@ && top != "sizes"@ ==> plan_of(
            Some(n),
            None,
            all,
            errors,
            deps,
            Some(top),
        ) == Err::<DownloadPlan, PlanError>(PlanError::InvalidTopCategory),
{
    reveal_strlit("downloads");
    reveal_strlit("sizes");
    assert("sizes"@[0] != "downloads"@[0]);
}

/// With neither `-n` nor crate names, `-a` downloads everything; otherwise `-e`
/// retries the recorded failures; otherwise the run is refused, with the `--top`
/// message when `--top` was given. `-d` changes nothing.
pub proof fn law_no_selection_plan(
    all: bool,
    errors: bool,
    deps: bool,
    top_lower: Option<Seq<char>>,
)
    ensures
        all ==> plan_of(None, None, all, errors, deps, top_lower) == Ok::<
            DownloadPlan,
            PlanError,
        >(DownloadPlan::All),
        !all && errors ==> plan_of(None, None, all, errors, deps, top_lower) == Ok::<
            DownloadPlan,
            PlanError,
        >(DownloadPlan::FromErrors),
        !all && !errors && top_lower is Some ==> plan_of(None, None, all, errors, deps, top_lower)
            == Err::<DownloadPlan, PlanError>(PlanError::TopWithoutNumber),
        !all && !errors && top_lower is None ==> plan_of(None, None, all, errors, deps, top_lower)
            == Err::<DownloadPlan, PlanError>(PlanError::NothingSelected),
{
}

impl PlanError {
    /// The message with which a run stops on this error.
    pub fn message(&self) -> (msg: String)
        ensures
            msg@ == match self {
                PlanError::TopWithoutNumber => "--top must be used with -n."@,
                PlanError::NothingSelected =>
                    "Either -a, -e, -n, or a list of space-separated crate names must be specified."@,
                PlanError::InvalidTopCategory =>
                    "Invalid category for --top. See: <downloads, sizes>"@,
                PlanError::NumberWithCrates =>
                    "--numdownloads and --crates cannot be specified together."@,
            },
    {
        match self {
            PlanError::TopWithoutNumber => String::from_str("--top must be used with -n."),
            PlanError::NothingSelected => String::from_str(
                "Either -a, -e, -n, or a list of space-separated crate names must be specified.",
            ),
            PlanError::InvalidTopCategory => String::from_str(
                "Invalid category for --top. See: <downloads, sizes>",
            ),
            PlanError::NumberWithCrates => String::from_str(
                "--numdownloads and --crates cannot be specified together.",
            ),
        }
    }
}

} // verus!
