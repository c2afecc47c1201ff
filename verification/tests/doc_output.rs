use amber::compiler::AmberCompiler;
use amber::doc_output::DocDestination;

fn deps(v: &[Option<&str>]) -> Vec<Option<String>> {
    v.iter().map(|d| d.map(|s| s.to_string())).collect()
}

#[test]
fn documented_modules_stay_under_the_input_directory() {
    let d = deps(&[
        Some("/home/u/proj/main.ab"),
        None,
        Some("/usr/lib/amber/std.ab"),
        Some("/home/u/proj/lib/util.ab"),
    ]);
    let r = AmberCompiler::doc_targets("/home/u/proj", Some("docs"), &d);
    assert_eq!(
        r,
        vec![
            (0, DocDestination::File("/home/u/proj/docs/main.md".to_string())),
            (3, DocDestination::File("/home/u/proj/docs/lib/util.md".to_string())),
        ]
    );
    let r = AmberCompiler::doc_targets("/home/u/proj", None, &d);
    assert_eq!(r, vec![(0, DocDestination::Stdout), (3, DocDestination::Stdout)]);
}

#[test]
fn absolute_output_directory_replaces_the_base() {
    let d = deps(&[Some("/p/a/b.ab")]);
    let r = AmberCompiler::doc_targets("/p", Some("/out"), &d);
    assert_eq!(r, vec![(0, DocDestination::File("/out/a/b.md".to_string()))]);
}

#[test]
fn report_lists_the_written_files() {
    assert_eq!(AmberCompiler::docs_report("Files", &vec![]), None);
    let paths = vec!["/d/a.md".to_string(), "/d/b.md".to_string()];
    assert_eq!(
        AmberCompiler::docs_report("Files", &paths),
        Some("Files generated at:\n/d/a.md\n/d/b.md".to_string())
    );
}
