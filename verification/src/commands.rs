use vstd::prelude::*;
use crate::cache::{path_with_extension, set_extension};
use crate::shell_resolve::ShellType;
use crate::text::{opt_string_view, opt_text, owned, push_str, same_text};

verus! {

/// Whether `path` stands for standard input or output (`-`).
pub open spec fn is_stdio(path: Seq<char>) -> bool {
    path == "-"@
}

/// Whether `path` is `-`, the name of standard input or output.
pub fn uses_stdio(path: &str) -> (r: bool)
    ensures
        r == is_stdio(path@),
{
    same_text(path, "-")
}

/// Where `build` writes: the given output, standard output when reading
/// standard input, else the input with the extension `sh`.
pub open spec fn output_path(input: Seq<char>, output: Option<Seq<char>>) -> Seq<char> {
    match output {
        Some(o) => o,
        None => if is_stdio(input) {
            input
        } else {
            path_with_extension(input, "sh"@)
        },
    }
}

/// The output file of `build` for `input` and the optional given `output`.
pub fn create_output(input: &str, output: Option<&str>) -> (r: String)
    ensures
        r@ == output_path(input@, opt_text(output)),
{
    match output {
        Some(o) => owned(o),
        None => if uses_stdio(input) {
            owned(input)
        } else {
            proof {
                reveal_strlit("sh");
            }
            set_extension(input, "sh")
        },
    }
}

/// A subcommand's own `--target` wins over the one given before it.
pub fn resolve_command_target(command_target: Option<ShellType>, cli_target: Option<ShellType>) -> (r: Option<
    ShellType,
>)
    ensures
        r == (match command_target {
            Some(t) => Some(t),
            None => cli_target,
        }),
{
    match command_target {
        Some(t) => Some(t),
        None => cli_target,
    }
}

/// Where `docs` writes: the given directory (default `docs`), or nowhere
/// but standard output for `-`.
pub open spec fn docs_output(output: Option<Seq<char>>) -> Option<Seq<char>> {
    let dir = match output {
        Some(o) => o,
        None => "docs"@,
    };
    if is_stdio(dir) {
        None
    } else {
        Some(dir)
    }
}

/// The output directory of `docs` for the optional given `output`.
pub fn docs_output_dir(output: Option<&str>) -> (r: Option<String>)
    ensures
        opt_string_view(r) == docs_output(opt_text(output)),
{
    let dir = match output {
        Some(o) => owned(o),
        None => owned("docs"),
    };
    if uses_stdio(dir.as_str()) {
        None
    } else {
        Some(dir)
    }
}

/// What to make of an input given where a subcommand was expected.
#[derive(Debug, PartialEq, Eq)]
pub enum InputCheck {
    /// It looks like an option (or is `help`): an unknown command or option.
    UnknownOption,
    /// No such file, but close to the name of the subcommand `suggestion`.
    UnknownCommand { suggestion: String },
    /// No such file.
    FileNotFound,
    /// A file (or standard input): compile and run it.
    Compile,
}

/// The mathematical content of an [`InputCheck`].
pub enum InputCheckView {
    UnknownOption,
    UnknownCommand { suggestion: Seq<char> },
    FileNotFound,
    Compile,
}

impl View for InputCheck {
    type V = InputCheckView;

    open spec fn view(&self) -> InputCheckView {
        match self {
            InputCheck::UnknownOption => InputCheckView::UnknownOption,
            InputCheck::UnknownCommand { suggestion } => InputCheckView::UnknownCommand { suggestion: suggestion@ },
            InputCheck::FileNotFound => InputCheckView::FileNotFound,
            InputCheck::Compile => InputCheckView::Compile,
        }
    }
}

pub open spec fn looks_like_option(input: Seq<char>) -> bool {
    (input.len() > 0 && input[0] == '-') || input == "help"@
}

/// How an input is handled, given whether a file of that name exists and
/// the subcommand whose name is similar enough to it, if any.
pub open spec fn input_check(input: Seq<char>, exists: bool, similar: Option<Seq<char>>) -> InputCheckView {
    if !exists && !is_stdio(input) {
        if looks_like_option(input) {
            InputCheckView::UnknownOption
        } else {
            match similar {
                Some(s) => InputCheckView::UnknownCommand { suggestion: s },
                None => InputCheckView::FileNotFound,
            }
        }
    } else {
        InputCheckView::Compile
    }
}

/// Decides what to do with `input`: `exists` says whether a file of that
/// name exists, `similar` is the subcommand most similar to it when the
/// similarity is high enough.
pub fn check_input(input: &str, exists: bool, similar: Option<String>) -> (r: InputCheck)
    ensures
        r@ == input_check(input@, exists, opt_string_view(similar)),
{
    if !exists && !uses_stdio(input) {
        let starts_with_dash = input.unicode_len() > 0 && input.get_char(0) == '-';
        if starts_with_dash || same_text(input, "help") {
            InputCheck::UnknownOption
        } else {
            match similar {
                Some(s) => InputCheck::UnknownCommand { suggestion: s },
                None => InputCheck::FileNotFound,
            }
        }
    } else {
        InputCheck::Compile
    }
}

/// The lines reported on standard error for a rejected input.
pub open spec fn input_check_report(check: InputCheckView, input: Seq<char>) -> Seq<Seq<char>> {
    match check {
        InputCheckView::UnknownOption => seq!["Error: Unknown command or invalid option: "@ + input],
        InputCheckView::UnknownCommand { suggestion } => seq![
            "Error: Unknown command: "@ + input,
            "Did you mean '"@ + suggestion + "'?"@,
        ],
        InputCheckView::FileNotFound => seq!["Error: File not found: "@ + input],
        InputCheckView::Compile => Seq::empty(),
    }
}

impl InputCheck {
    /// The error lines to show for this outcome on `input` (none when the
    /// input is compiled).
    pub fn report(&self, input: &str) -> (r: Vec<String>)
        ensures
            r@.map_values(|s: String| s@) == input_check_report(self@, input@),
    {
        let mut r: Vec<String> = Vec::new();
        match self {
            InputCheck::UnknownOption => {
                let mut line = owned("Error: Unknown command or invalid option: ");
                push_str(&mut line, input);
                r.push(line);
            },
            InputCheck::UnknownCommand { suggestion } => {
                let mut first = owned("Error: Unknown command: ");
                push_str(&mut first, input);
                r.push(first);
                let mut second = owned("Did you mean '");
                push_str(&mut second, suggestion.as_str());
                push_str(&mut second, "'?");
                r.push(second);
            },
            InputCheck::FileNotFound => {
                let mut line = owned("Error: File not found: ");
                push_str(&mut line, input);
                r.push(line);
            },
            InputCheck::Compile => {},
        }
        assert(r@.map_values(|s: String| s@) =~= input_check_report(self@, input@));
        r
    }
}

/// The exit code of a finished script: its own, or 1 when it has none
/// (killed by a signal).
pub fn exit_code_of(code: Option<i32>) -> (r: i32)
    ensures
        r == (match code {
            Some(c) => c,
            None => 1,
        }),
{
    match code {
        Some(c) => c,
        None => 1,
    }
}

} // verus!
