use unsafe_census::census::{
    count_fn_idents, has_fn_keyword, ident_mentions_fn, verbatim_fns, AnalyzeError, CrateData, SyntaxNode,
};
use unsafe_census::syntax::parse_source;

fn counters(d: &CrateData) -> [u32; 7] {
    [
        d.unsafe_traits(),
        d.unsafe_exprs(),
        d.unsafe_impls(),
        d.unsafe_funcs(),
        d.unsafe_mods(),
        d.ffi_export_funcs(),
        d.ffi_import_funcs(),
    ]
}

fn sample_nodes() -> Vec<SyntaxNode> {
    vec![
        SyntaxNode::ImplBlock { is_unsafe: true },
        SyntaxNode::ImplBlock { is_unsafe: false },
        SyntaxNode::FnItem { is_unsafe: true, has_abi: true },
        SyntaxNode::ImplFn { is_unsafe: false, has_abi: true },
        SyntaxNode::ForeignFn,
        SyntaxNode::Module { is_unsafe: true },
        SyntaxNode::Trait { is_unsafe: true },
        SyntaxNode::Trait { is_unsafe: false },
        SyntaxNode::UnsafeBlock,
        SyntaxNode::UnsafeBlock,
    ]
}

#[test]
fn default_census_is_empty() {
    let d = CrateData::default();
    assert_eq!(d.crate_name(), "");
    assert_eq!(counters(&d), [0; 7]);
}

#[test]
fn set_crate_name_keeps_counters() {
    let mut d = CrateData::default();
    d.record(&SyntaxNode::UnsafeBlock);
    d.set_crate_name("serde");
    assert_eq!(d.crate_name(), "serde");
    assert_eq!(counters(&d), [0, 1, 0, 0, 0, 0, 0]);
    d.set_crate_name("tokio");
    assert_eq!(d.crate_name(), "tokio");
}

#[test]
fn record_counts_each_kind() {
    let mut d = CrateData::default();
    d.record_all(&sample_nodes());
    // traits, exprs, impls, funcs, mods, ffi export, ffi import
    assert_eq!(counters(&d), [1, 2, 1, 2, 1, 2, 1]);
}

#[test]
fn safe_constructs_count_nothing() {
    let mut d = CrateData::default();
    d.record(&SyntaxNode::ImplBlock { is_unsafe: false });
    d.record(&SyntaxNode::FnItem { is_unsafe: false, has_abi: false });
    d.record(&SyntaxNode::ImplFn { is_unsafe: false, has_abi: false });
    d.record(&SyntaxNode::Module { is_unsafe: false });
    d.record(&SyntaxNode::Trait { is_unsafe: false });
    assert_eq!(counters(&d), [0; 7]);
}

#[test]
fn foreign_fn_counts_as_import_and_unsafe() {
    let mut d = CrateData::default();
    d.record(&SyntaxNode::ForeignFn);
    assert_eq!(d.unsafe_funcs(), 1);
    assert_eq!(d.ffi_import_funcs(), 1);
}

#[test]
fn verbatim_item_counts_one_function() {
    let mut d = CrateData::default();
    // `safe fn fn_ptr();` kept as raw tokens
    let idents = vec!["safe".to_string(), "fn".to_string(), "fn_ptr".to_string()];
    d.record(&SyntaxNode::ForeignVerbatim { idents });
    assert_eq!(d.unsafe_funcs(), 1);
    assert_eq!(d.ffi_import_funcs(), 1);
    // an item that declares no function counts each identifier holding `fn`
    let idents = vec!["safe".to_string(), "static".to_string(), "fn_table".to_string(), "u8".to_string()];
    d.record(&SyntaxNode::ForeignVerbatim { idents });
    assert_eq!(d.unsafe_funcs(), 2);
    assert_eq!(d.ffi_import_funcs(), 2);
    let idents = vec!["static".to_string(), "my_fn".to_string(), "fnord".to_string()];
    d.record(&SyntaxNode::ForeignVerbatim { idents });
    assert_eq!(d.unsafe_funcs(), 4);
    assert_eq!(d.ffi_import_funcs(), 4);
    let idents = vec!["safe".to_string(), "static".to_string(), "x".to_string(), "u8".to_string()];
    d.record(&SyntaxNode::ForeignVerbatim { idents });
    assert_eq!(d.unsafe_funcs(), 4);
}

#[test]
fn verbatim_fns_cases() {
    let v = |xs: &[&str]| xs.iter().map(|x| x.to_string()).collect::<Vec<String>>();
    assert_eq!(verbatim_fns(&v(&["safe", "fn", "fn_ptr"])), 1);
    assert_eq!(verbatim_fns(&v(&["safe", "fn", "f", "fn_t"])), 1);
    assert_eq!(verbatim_fns(&v(&["safe", "static", "fn_a", "fn_t"])), 2);
    assert_eq!(verbatim_fns(&v(&["safe", "static", "a", "u8"])), 0);
    assert_eq!(verbatim_fns(&vec![]), 0);
}

#[test]
fn ident_mentions_fn_cases() {
    assert!(ident_mentions_fn("fn"));
    assert!(ident_mentions_fn("xfnx"));
    assert!(ident_mentions_fn("ffn"));
    assert!(!ident_mentions_fn(""));
    assert!(!ident_mentions_fn("f"));
    assert!(!ident_mentions_fn("nf"));
    assert!(!ident_mentions_fn("f_n"));
    assert!(!ident_mentions_fn("FN"));
    assert!(ident_mentions_fn("éfn"));
}

#[test]
fn count_fn_idents_counts() {
    let v = vec!["fn".to_string(), "x".to_string(), "fnord".to_string()];
    assert_eq!(count_fn_idents(&v), 2);
    assert_eq!(count_fn_idents(&vec![]), 0);
}

#[test]
fn has_fn_keyword_cases() {
    let v = |xs: &[&str]| xs.iter().map(|x| x.to_string()).collect::<Vec<String>>();
    assert!(has_fn_keyword(&v(&["safe", "fn", "f"])));
    assert!(has_fn_keyword(&v(&["fn", "fn"])));
    assert!(!has_fn_keyword(&v(&["my_fn", "fnord", "FN", "f"])));
    assert!(!has_fn_keyword(&vec![]));
}

#[test]
fn batches_agree_with_one_run() {
    let nodes = sample_nodes();
    let mut one = CrateData::default();
    one.record_all(&nodes);
    let mut two = CrateData::default();
    let (a, b) = nodes.split_at(4);
    two.record_all(&b.iter().map(clone_node).collect());
    two.record_all(&a.iter().map(clone_node).collect());
    assert_eq!(counters(&one), counters(&two));
}

fn clone_node(n: &SyntaxNode) -> SyntaxNode {
    match n {
        SyntaxNode::ImplBlock { is_unsafe } => SyntaxNode::ImplBlock { is_unsafe: *is_unsafe },
        SyntaxNode::FnItem { is_unsafe, has_abi } => {
            SyntaxNode::FnItem { is_unsafe: *is_unsafe, has_abi: *has_abi }
        }
        SyntaxNode::ImplFn { is_unsafe, has_abi } => {
            SyntaxNode::ImplFn { is_unsafe: *is_unsafe, has_abi: *has_abi }
        }
        SyntaxNode::ForeignFn => SyntaxNode::ForeignFn,
        SyntaxNode::ForeignVerbatim { idents } => SyntaxNode::ForeignVerbatim { idents: idents.clone() },
        SyntaxNode::Module { is_unsafe } => SyntaxNode::Module { is_unsafe: *is_unsafe },
        SyntaxNode::Trait { is_unsafe } => SyntaxNode::Trait { is_unsafe: *is_unsafe },
        SyntaxNode::UnsafeBlock => SyntaxNode::UnsafeBlock,
    }
}

#[test]
fn imports_never_exceed_unsafe_funcs() {
    let mut d = CrateData::default();
    d.record_all(&sample_nodes());
    d.record(&SyntaxNode::ForeignVerbatim { idents: vec!["fn".to_string()] });
    assert!(d.ffi_import_funcs() <= d.unsafe_funcs());
}

#[test]
fn analyze_sources_without_files_is_an_error() {
    let mut d = CrateData::default();
    d.set_crate_name("empty-crate");
    match d.analyze_sources(&vec![]) {
        Err(e) => {
            assert!(matches!(e, AnalyzeError::NoEntries { .. }));
            assert_eq!(e.message(), "No entries found for crate: empty-crate");
        }
        Ok(()) => panic!("a crate without sources must fail"),
    }
    assert_eq!(counters(&d), [0; 7]);
}

#[test]
fn analyze_sources_sums_files() {
    let mut d = CrateData::default();
    let files = vec![sample_nodes(), vec![], vec![SyntaxNode::UnsafeBlock]];
    assert!(d.fits_files(&files));
    assert!(d.analyze_sources(&files).is_ok());
    assert_eq!(counters(&d), [1, 3, 1, 2, 1, 2, 1]);
}

#[test]
fn fits_files_on_small_crates() {
    let mut d = CrateData::default();
    let many: Vec<String> = (0..5).map(|_| "fn".to_string()).collect();
    d.record(&SyntaxNode::ForeignVerbatim { idents: many });
    // one item declares one function, however often `fn` appears in it
    assert_eq!(d.ffi_import_funcs(), 1);
    assert!(d.fits_files(&vec![vec![SyntaxNode::ForeignFn]]));
    assert!(d.fits_files(&vec![]));
}

#[test]
fn unparsable_message() {
    assert_eq!(AnalyzeError::Unparsable.message(), "Source file does not parse.");
}

#[test]
fn parse_source_accepts_rust() {
    assert!(parse_source("fn main() { unsafe { } }").is_ok());
    assert!(parse_source("").is_ok());
}

#[test]
fn parse_source_rejects_garbage() {
    match parse_source("fn (") {
        Err(AnalyzeError::Unparsable) => {}
        _ => panic!("`fn (` is no Rust file"),
    }
}

#[test]
fn from_parts_holds_given_counters() {
    let d = CrateData::from_parts("libc".to_string(), 1, 2, 3, 4, 5, 6, 7);
    assert_eq!(d.crate_name(), "libc");
    assert_eq!(counters(&d), [1, 2, 3, 4, 5, 6, 7]);
}

#[test]
fn files_one_by_one_equal_one_run() {
    let mut by_files = CrateData::default();
    let files = vec![sample_nodes(), vec![SyntaxNode::ForeignFn, SyntaxNode::UnsafeBlock]];
    by_files.analyze_sources(&files).unwrap();
    let mut flat = CrateData::default();
    let mut all = sample_nodes();
    all.push(SyntaxNode::ForeignFn);
    all.push(SyntaxNode::UnsafeBlock);
    flat.record_all(&all);
    assert_eq!(counters(&by_files), counters(&flat));
}
