use unsafe_census::catalog::{
    any_listed, choose_registry, is_listed, retain_depending_on, retain_named, source_pattern,
    strip_deps, take_first, Crate, RegistryChoice, CRATE_OUTPUT_DIR,
};

fn krate(name: &str, version: &str, deps: &[&str]) -> Crate {
    Crate {
        name: name.to_string(),
        version: version.to_string(),
        deps: deps.iter().map(|d| d.to_string()).collect(),
    }
}

fn index() -> Vec<Crate> {
    vec![
        krate("serde", "1.0.210", &["serde_derive"]),
        krate("tokio", "1.40.0", &["bytes", "mio", "libc"]),
        krate("libc", "0.2.158", &[]),
        krate("rand", "0.8.5", &["libc", "rand_core"]),
    ]
}

fn names(v: &[Crate]) -> Vec<&str> {
    v.iter().map(|c| c.name.as_str()).collect()
}

#[test]
fn download_url_formula() {
    let c = krate("serde", "1.0.210", &[]);
    assert_eq!(c.download_url(), "https://static.crates.io/crates/serde/serde-1.0.210.crate");
}

#[test]
fn unpacked_dir_formula() {
    let c = krate("serde", "1.0.210", &[]);
    assert_eq!(c.unpacked_dir(), "crates/serde-1.0.210");
    assert!(c.unpacked_dir().starts_with(CRATE_OUTPUT_DIR));
}

#[test]
fn source_pattern_formula() {
    assert_eq!(source_pattern("crates/serde-1.0.210"), "crates/serde-1.0.210/**/*.rs");
}

#[test]
fn take_first_truncates() {
    assert_eq!(names(&take_first(index(), 2)), vec!["serde", "tokio"]);
    assert_eq!(names(&take_first(index(), 0)), Vec::<&str>::new());
    assert_eq!(names(&take_first(index(), 10)).len(), 4);
}

#[test]
fn retain_named_keeps_order_of_index() {
    let wanted = vec!["rand".to_string(), "serde".to_string(), "missing".to_string()];
    assert_eq!(names(&retain_named(index(), &wanted)), vec!["serde", "rand"]);
    assert!(retain_named(index(), &vec![]).is_empty());
}

#[test]
fn retain_depending_on_filters_by_deps() {
    let wanted = vec!["libc".to_string()];
    assert_eq!(names(&retain_depending_on(index(), &wanted)), vec!["tokio", "rand"]);
    assert!(retain_depending_on(index(), &vec!["nothing".to_string()]).is_empty());
}

#[test]
fn membership_helpers() {
    let v = vec!["a".to_string(), "b".to_string()];
    assert!(is_listed(&v, &"b".to_string()));
    assert!(!is_listed(&v, &"c".to_string()));
    assert!(any_listed(&vec!["x".to_string(), "a".to_string()], &v));
    assert!(!any_listed(&vec![], &v));
}

#[test]
fn strip_deps_keeps_names_and_versions() {
    let stripped = strip_deps(index());
    assert_eq!(names(&stripped), vec!["serde", "tokio", "libc", "rand"]);
    assert_eq!(stripped[1].version, "1.40.0");
    assert!(stripped.iter().all(|c| c.deps.is_empty()));
}

#[test]
fn registry_configured_wins() {
    assert!(matches!(choose_registry(true, &Some(vec![5, 7])), RegistryChoice::Configured));
    assert!(matches!(choose_registry(true, &None), RegistryChoice::Configured));
}

#[test]
fn registry_local_fallbacks() {
    assert!(matches!(choose_registry(false, &None), RegistryChoice::Local));
    assert!(matches!(choose_registry(false, &Some(vec![])), RegistryChoice::Local));
}

#[test]
fn registry_newest_last_of_ties() {
    assert!(matches!(choose_registry(false, &Some(vec![3, 9, 1])), RegistryChoice::Newest(1)));
    assert!(matches!(choose_registry(false, &Some(vec![9, 3, 9, 1])), RegistryChoice::Newest(2)));
    assert!(matches!(choose_registry(false, &Some(vec![-4])), RegistryChoice::Newest(0)));
    assert!(matches!(choose_registry(false, &Some(vec![0, -2])), RegistryChoice::Newest(0)));
}
