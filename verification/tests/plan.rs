use unsafe_census::plan::{plan_download, plan_download_lowered, DownloadPlan, PlanError, TopCategory};

fn s(x: &str) -> String {
    x.to_string()
}

#[test]
fn all_flag() {
    assert!(matches!(plan_download(None, None, true, true, false, None), Ok(DownloadPlan::All)));
}

#[test]
fn errors_flag() {
    assert!(matches!(
        plan_download(None, None, false, true, false, Some(s("x"))),
        Ok(DownloadPlan::FromErrors)
    ));
}

#[test]
fn top_without_number() {
    let r = plan_download(None, None, false, false, false, Some(s("downloads")));
    assert_eq!(r.unwrap_err(), PlanError::TopWithoutNumber);
    assert_eq!(PlanError::TopWithoutNumber.message(), "--top must be used with -n.");
}

#[test]
fn nothing_selected() {
    let r = plan_download(None, None, false, false, true, None);
    assert_eq!(r.unwrap_err(), PlanError::NothingSelected);
    assert_eq!(
        PlanError::NothingSelected.message(),
        "Either -a, -e, -n, or a list of space-separated crate names must be specified."
    );
}

#[test]
fn crate_list() {
    match plan_download(None, Some(vec![s("serde")]), true, false, false, None) {
        Ok(DownloadPlan::ByCrates(v)) => assert_eq!(v, vec!["serde"]),
        other => panic!("unexpected {:?}", other),
    }
}

#[test]
fn dependency_list() {
    match plan_download(None, Some(vec![s("libc"), s("rand")]), false, false, true, None) {
        Ok(DownloadPlan::ByDependencies(v)) => assert_eq!(v, vec!["libc", "rand"]),
        other => panic!("unexpected {:?}", other),
    }
}

#[test]
fn number_only() {
    assert!(matches!(
        plan_download(Some(25), None, true, false, false, None),
        Ok(DownloadPlan::ByNumber(25))
    ));
}

#[test]
fn top_downloads_any_case() {
    match plan_download(Some(10), None, false, false, false, Some(s("DownLoads"))) {
        Ok(DownloadPlan::TopN(cat, n)) => {
            assert_eq!(cat, TopCategory::Downloads);
            assert_eq!(n, 10);
        }
        other => panic!("unexpected {:?}", other),
    }
}

#[test]
fn top_lowered_is_exact() {
    assert!(matches!(
        plan_download_lowered(Some(3), None, false, false, false, Some(s("downloads"))),
        Ok(DownloadPlan::TopN(TopCategory::Downloads, 3))
    ));
    assert_eq!(
        plan_download_lowered(Some(3), None, false, false, false, Some(s("Downloads"))).unwrap_err(),
        PlanError::InvalidTopCategory
    );
}

#[test]
fn top_sizes_is_accepted() {
    assert!(matches!(
        plan_download(Some(5), None, false, false, false, Some(s("Sizes"))),
        Ok(DownloadPlan::TopN(TopCategory::Sizes, 5))
    ));
}

#[test]
fn top_unknown_is_invalid() {
    let r = plan_download(Some(3), None, false, false, false, Some(s("size")));
    assert_eq!(r.unwrap_err(), PlanError::InvalidTopCategory);
    assert_eq!(
        PlanError::InvalidTopCategory.message(),
        "Invalid category for --top. See: <downloads, sizes>"
    );
}

#[test]
fn number_with_crates() {
    let r = plan_download(Some(3), Some(vec![s("a")]), true, true, true, None);
    assert_eq!(r.unwrap_err(), PlanError::NumberWithCrates);
    assert_eq!(
        PlanError::NumberWithCrates.message(),
        "--numdownloads and --crates cannot be specified together."
    );
}
