use vstd::prelude::*;
use crate::cache::{path_pushed, push_path};
use crate::compiler::AmberCompiler;
use crate::text::{owned, push_str, texts};

verus! {

/// The path `path` relative to `base`, as `Path::strip_prefix` gives it:
/// `None` when `base` is not a prefix of `path` (component-wise).
pub uninterp spec fn path_relative(path: Seq<char>, base: Seq<char>) -> Option<Seq<char>>;

/// The directory part of `path`, as `Path::parent` gives it (`None` for a
/// root or an empty path).
pub uninterp spec fn path_parent(path: Seq<char>) -> Option<Seq<char>>;

/// The file name of `path` without its extension, as `Path::file_stem`
/// gives it (`None` when the path has no file name).
pub uninterp spec fn path_stem(path: Seq<char>) -> Option<Seq<char>>;

pub open spec fn opt_text_view(o: Option<String>) -> Option<Seq<char>> {
    match o {
        Some(s) => Some(s@),
        None => None,
    }
}

/// `Path::strip_prefix` of `path` by `base`, read back as a string.  The
/// contract names the result, [`path_relative`] of the two arguments.
#[verifier::external_body]
fn strip_path_prefix(path: &str, base: &str) -> (r: Option<String>)
    ensures
        opt_text_view(r) == path_relative(path@, base@),
{
    match std::path::Path::new(path).strip_prefix(base) {
        Ok(p) => Some(p.to_string_lossy().into_owned()),
        Err(_) => None,
    }
}

/// `Path::parent` of `path`, read back as a string.  The contract names the
/// result, [`path_parent`] of the argument.
#[verifier::external_body]
fn parent_path(path: &str) -> (r: Option<String>)
    ensures
        opt_text_view(r) == path_parent(path@),
{
    match std::path::Path::new(path).parent() {
        Some(p) => Some(p.to_string_lossy().into_owned()),
        None => None,
    }
}

/// `Path::file_stem` of `path`, read back as a string.  The contract names
/// the result, [`path_stem`] of the argument.
#[verifier::external_body]
fn stem_of_path(path: &str) -> (r: Option<String>)
    ensures
        opt_text_view(r) == path_stem(path@),
{
    match std::path::Path::new(path).file_stem() {
        Some(p) => Some(p.to_string_lossy().into_owned()),
        None => None,
    }
}

/// Where the documentation of one module goes.
#[derive(Debug, PartialEq, Eq)]
pub enum DocDestination {
    /// To standard output (no output directory was given).
    Stdout,
    /// To this Markdown file.
    File(String),
    /// The module's path has no directory or file name part, so no file
    /// can be named for it.
    Unnamed,
}

pub enum DocDestinationView {
    Stdout,
    File(Seq<char>),
    Unnamed,
}

pub open spec fn destination_view(d: DocDestination) -> DocDestinationView {
    match d {
        DocDestination::Stdout => DocDestinationView::Stdout,
        DocDestination::File(p) => DocDestinationView::File(p@),
        DocDestination::Unnamed => DocDestinationView::Unnamed,
    }
}

/// The Markdown file for the module at `dep` (under `base`, whose relative
/// path is `rel`) in the output directory `output`: the module's directory
/// is kept below `base` joined with `output`, and the file is named after
/// the module with `.md`.
pub open spec fn doc_file(base: Seq<char>, output: Seq<char>, dep: Seq<char>, rel: Seq<char>) -> DocDestinationView {
    match (path_parent(rel), path_stem(dep)) {
        (Some(dir), Some(stem)) => DocDestinationView::File(
            path_pushed(path_pushed(path_pushed(base, output), dir), stem + ".md"@),
        ),
        _ => DocDestinationView::Unnamed,
    }
}

/// The modules documented, in order, with where each one's documentation
/// goes: a module whose path could not be resolved (`None`) or that lies
/// outside `base` is left out.
pub open spec fn doc_plan(base: Seq<char>, output: Option<Seq<char>>, deps: Seq<Option<Seq<char>>>) -> Seq<(usize, DocDestinationView)>
    decreases deps.len(),
{
    if deps.len() == 0 {
        Seq::empty()
    } else {
        let rest = doc_plan(base, output, deps.drop_last());
        let i = (deps.len() - 1) as usize;
        match deps.last() {
            None => rest,
            Some(dep) => match path_relative(dep, base) {
                None => rest,
                Some(rel) => rest.push(
                    (
                        i,
                        match output {
                            None => DocDestinationView::Stdout,
                            Some(o) => doc_file(base, o, dep, rel),
                        },
                    ),
                ),
            },
        }
    }
}

pub open spec fn plan_view(v: Seq<(usize, DocDestination)>) -> Seq<(usize, DocDestinationView)> {
    v.map_values(|e: (usize, DocDestination)| (e.0, destination_view(e.1)))
}

pub open spec fn opt_paths_view(v: Seq<Option<String>>) -> Seq<Option<Seq<char>>> {
    v.map_values(|o: Option<String>| opt_text_view(o))
}

/// The report after documentation files were written: `noun` ("File" or
/// "Files") and each path on a line of its own.
pub open spec fn generated_report(noun: Seq<char>, paths: Seq<Seq<char>>) -> Seq<char>
    decreases paths.len(),
{
    if paths.len() == 0 {
        noun + " generated at:"@
    } else {
        generated_report(noun, paths.drop_last()) + "\n"@ + paths.last()
    }
}

impl AmberCompiler {
    /// Where the documentation of each module of the program goes (see
    /// [`doc_plan`]): `base` is the directory of the input file, `output`
    /// the output directory if one was given, and `deps` the resolved
    /// absolute path of each module in forest order.
    pub fn doc_targets(base: &str, output: Option<&str>, deps: &Vec<Option<String>>) -> (r: Vec<(usize, DocDestination)>)
        ensures
            plan_view(r@) == doc_plan(base@, match output {
                Some(o) => Some(o@),
                None => None,
            }, opt_paths_view(deps@)),
    {
        let ghost out_view: Option<Seq<char>> = match output {
            Some(o) => Some(o@),
            None => None,
        };
        let mut r: Vec<(usize, DocDestination)> = Vec::new();
        let mut i: usize = 0;
        while i < deps.len()
            invariant
                i <= deps@.len(),
                out_view == (match output {
                    Some(o) => Some(o@),
                    None => None::<Seq<char>>,
                }),
                plan_view(r@) == doc_plan(base@, out_view, opt_paths_view(deps@).take(i as int)),
            decreases deps@.len() - i,
        {
            let ghost before = r@;
            assert(opt_paths_view(deps@).take(i + 1).drop_last() =~= opt_paths_view(deps@).take(i as int));
            match &deps[i] {
                None => {},
                Some(dep) => {
                    match strip_path_prefix(dep.as_str(), base) {
                        None => {},
                        Some(rel) => {
                            let dest = match output {
                                None => DocDestination::Stdout,
                                Some(o) => {
                                    let dir = parent_path(rel.as_str());
                                    let stem = stem_of_path(dep.as_str());
                                    match (dir, stem) {
                                        (Some(dir), Some(stem)) => {
                                            let out_dir = push_path(base, o);
                                            let out_dir = push_path(out_dir.as_str(), dir.as_str());
                                            let mut name = owned(stem.as_str());
                                            push_str(&mut name, ".md");
                                            DocDestination::File(push_path(out_dir.as_str(), name.as_str()))
                                        },
                                        _ => DocDestination::Unnamed,
                                    }
                                },
                            };
                            r.push((i, dest));
                        },
                    }
                },
            }
            proof {
                assert(plan_view(r@) =~= doc_plan(base@, out_view, opt_paths_view(deps@).take(i + 1)));
            }
            i = i + 1;
        }
        assert(opt_paths_view(deps@).take(deps@.len() as int) =~= opt_paths_view(deps@));
        r
    }

    /// The report on the written documentation files, or `None` when none
    /// was written.  `noun` is how the number of files is worded.
    pub fn docs_report(noun: &str, paths: &Vec<String>) -> (r: Option<String>)
        ensures
            r is None <==> paths@.len() == 0,
            r is Some ==> r->0@ == generated_report(noun@, texts(paths@)),
    {
        if paths.len() == 0 {
            return None;
        }
        let mut m = owned(noun);
        push_str(&mut m, " generated at:");
        let mut i: usize = 0;
        while i < paths.len()
            invariant
                i <= paths@.len(),
                m@ == generated_report(noun@, texts(paths@).take(i as int)),
            decreases paths@.len() - i,
        {
            assert(texts(paths@).take(i + 1).drop_last() =~= texts(paths@).take(i as int));
            push_str(&mut m, "\n");
            push_str(&mut m, paths[i].as_str());
            i = i + 1;
        }
        assert(texts(paths@).take(paths@.len() as int) =~= texts(paths@));
        Some(m)
    }
}

} // verus!
