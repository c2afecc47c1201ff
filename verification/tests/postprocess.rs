use amber::postprocess::PostProcessor;

fn names(v: &[PostProcessor]) -> Vec<String> {
    v.iter().map(|p| p.name.clone()).collect()
}

#[test]
fn default_pipeline_is_shfmt_then_bshchk() {
    let d = PostProcessor::get_default();
    assert_eq!(names(&d), vec!["shfmt".to_string(), "bshchk".to_string()]);
    assert_eq!(d[0].bin, "/usr/bin/shfmt");
    assert_eq!(d[0].args, vec!["-i", "4", "-ln", "bash"]);
    assert_eq!(d[1].bin, "/usr/bin/bshchk");
    assert_eq!(d[1].args, vec!["--ignore-shebang"]);
}

#[test]
fn new_postprocessor_has_no_arguments() {
    let p = PostProcessor::new("x", "/bin/x");
    assert_eq!(p.name, "x");
    assert_eq!(p.bin, "/bin/x");
    assert!(p.args.is_empty());
}

#[test]
fn star_disables_all_postprocessors() {
    let kept = PostProcessor::filter_default(vec!["*".to_string()]);
    assert!(kept.is_empty());
}

#[test]
fn no_filters_keep_all_postprocessors() {
    let kept = PostProcessor::filter_default(vec![]);
    assert_eq!(names(&kept), vec!["shfmt".to_string(), "bshchk".to_string()]);
}

#[test]
fn wildcard_filter_disables_matching_names_only() {
    let kept = PostProcessor::filter_default(vec!["b*chk".to_string()]);
    assert_eq!(names(&kept), vec!["shfmt".to_string()]);
    let kept = PostProcessor::filter_default(vec!["sh?mt".to_string()]);
    assert_eq!(names(&kept), vec!["bshchk".to_string()]);
}

#[test]
fn filter_matches_whole_names() {
    // `bsh` is a prefix of `bshchk` but does not match the whole name.
    let kept = PostProcessor::filter_default(vec!["bsh".to_string(), "unknown".to_string()]);
    assert_eq!(names(&kept), vec!["shfmt".to_string(), "bshchk".to_string()]);
}

#[test]
fn filters_compose() {
    // Filtering by ["sh*"] leaves bshchk, which ["b*"] then removes; both
    // lists at once remove both.
    let first = PostProcessor::filter_default(vec!["sh*".to_string()]);
    assert_eq!(names(&first), vec!["bshchk".to_string()]);
    let both = PostProcessor::filter_default(vec!["sh*".to_string(), "b*".to_string()]);
    assert!(both.is_empty());
}
