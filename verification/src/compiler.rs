use vstd::prelude::*;
use crate::text::{append_lines, copy_texts, owned, copy_string, push_str, chars_of, string_of, same_text, replace_text, replaced, join_texts, joined, texts};

verus! {

/// Options that steer compilation.
pub struct CompilerOptions {
    /// Wildcard patterns of the postprocessors that must not run.
    pub no_proc: Vec<String>,
    pub minify: bool,
    pub test_mode: bool,
    pub test_name: Option<String>,
}

impl CompilerOptions {
    /// Options taken from the command line.
    pub fn from_args(no_proc: &[String], minify: bool, test_mode: bool, test_name: Option<String>) -> (r: Self)
        ensures
            texts(r.no_proc@) == texts(no_proc@),
            r.minify == minify,
            r.test_mode == test_mode,
            r.test_name == test_name,
    {
        CompilerOptions { no_proc: copy_texts(no_proc), minify, test_mode, test_name }
    }
}

impl Default for CompilerOptions {
    /// By default every postprocessor is disabled (`no_proc` is `["*"]`).
    fn default() -> (r: Self)
        ensures
            texts(r.no_proc@) == seq![seq!['*']],
            !r.minify,
            !r.test_mode,
            r.test_name is None,
    {
        let mut no_proc: Vec<String> = Vec::new();
        let star = owned("*");
        proof {
            reveal_strlit("*");
        }
        no_proc.push(star);
        assert(star@ =~= seq!['*']);
        assert(no_proc@ =~= seq![star]);
        assert(texts(no_proc@) =~= seq![seq!['*']]);
        CompilerOptions { no_proc, minify: false, test_mode: false, test_name: None }
    }
}

/// `code` begins with a shebang (`#!`).
pub open spec fn has_shebang(code: Seq<char>) -> bool {
    code.len() >= 2 && code[0] == '#' && code[1] == '!'
}

/// The source with a leading shebang line turned into a comment.
pub open spec fn shebang_commented(code: Seq<char>) -> Seq<char> {
    if has_shebang(code) {
        seq!['/', '/', ' '] + code
    } else {
        code
    }
}

/// A compiler session: the loaded source, its path and the options.
pub struct AmberCompiler {
    pub code: Option<String>,
    pub path: Option<String>,
    pub options: CompilerOptions,
}

/// `"` with a backslash in front of every double quote, wrapped in quotes:
/// how a script argument is passed to `set --`.
pub open spec fn quoted_argument(arg: Seq<char>) -> Seq<char> {
    seq!['"'] + replaced(arg, seq!['"'], seq!['\\', '"']) + seq!['"']
}

/// The script run for `code` with the command line arguments `args`.
pub open spec fn script_with_args(code: Seq<char>, args: Seq<Seq<char>>) -> Seq<char> {
    if args.len() == 0 {
        code
    } else {
        seq!['s', 'e', 't', ' ', '-', '-', ' ']
            + joined(args.map_values(|a: Seq<char>| quoted_argument(a)), seq![' '])
            + seq!['\n'] + code
    }
}

/// The placeholder that headers and footers use for the compiler version.
pub open spec fn version_placeholder() -> Seq<char> {
    "{{ version }}"@
}

/// `text` ends with one of Unicode's white space characters removed from its
/// end, repeatedly.
pub open spec fn is_white_space(c: char) -> bool {
    ('\u{9}' <= c && c <= '\u{d}') || c == ' ' || c == '\u{85}' || c == '\u{a0}' || c == '\u{1680}'
        || ('\u{2000}' <= c && c <= '\u{200a}') || c == '\u{2028}' || c == '\u{2029}'
        || c == '\u{202f}' || c == '\u{205f}' || c == '\u{3000}'
}

/// `text` without its trailing white space.
pub open spec fn trimmed_end(text: Seq<char>) -> Seq<char>
    decreases text.len(),
{
    if text.len() > 0 && is_white_space(text.last()) {
        trimmed_end(text.drop_last())
    } else {
        text
    }
}

pub(crate) fn is_white_space_char(c: char) -> (r: bool)
    ensures
        r == is_white_space(c),
{
    ('\u{9}' <= c && c <= '\u{d}') || c == ' ' || c == '\u{85}' || c == '\u{a0}' || c == '\u{1680}'
        || ('\u{2000}' <= c && c <= '\u{200a}') || c == '\u{2028}' || c == '\u{2029}'
        || c == '\u{202f}' || c == '\u{205f}' || c == '\u{3000}'
}

/// `text` without trailing white space, as `str::trim_end` gives it.
pub(crate) fn trim_end_text(text: &str) -> (r: String)
    ensures
        r@ == trimmed_end(text@),
{
    let v = chars_of(text);
    let mut n = v.len();
    assert(v@.subrange(0, n as int) =~= text@);
    while n > 0 && is_white_space_char(v[n - 1])
        invariant
            n <= v@.len(),
            v@ == text@,
            trimmed_end(v@.subrange(0, n as int)) == trimmed_end(text@),
        decreases n,
    {
        proof {
            assert(v@.subrange(0, n as int).drop_last() =~= v@.subrange(0, n - 1));
        }
        n = n - 1;
    }
    let mut out: Vec<char> = Vec::new();
    let mut i: usize = 0;
    while i < n
        invariant
            n <= v@.len(),
            i <= n,
            out@ == v@.subrange(0, i as int),
        decreases n - i,
    {
        out.push(v[i]);
        i = i + 1;
        assert(out@ =~= v@.subrange(0, i as int));
    }
    string_of(out.as_slice())
}

/// The message shown when the postprocessor `name` failed with `error`.
pub open spec fn postprocessor_failure_text(name: Seq<char>, error: Seq<char>) -> Seq<char> {
    "Postprocessor '"@ + name + "' failed\n"@ + trimmed_end(error)
}

impl AmberCompiler {
    /// A session for `code` (whose shebang line, if any, is commented out).
    pub fn new(code: String, path: Option<String>, options: CompilerOptions) -> (r: Self)
        ensures
            r.code matches Some(c) && c@ == shebang_commented(code@),
            r.path == path,
            r.options == options,
    {
        let compiler = AmberCompiler { code: None, path, options };
        compiler.load_code(AmberCompiler::comment_shebang(code))
    }

    /// Replaces the loaded source.
    pub fn load_code(self, code: String) -> (r: Self)
        ensures
            r.code == Some(code),
            r.path == self.path,
            r.options == self.options,
    {
        AmberCompiler { code: Some(code), path: self.path, options: self.options }
    }

    /// Turns a leading shebang line into a comment, so that the script can
    /// be run directly and still compiled.
    pub fn comment_shebang(code: String) -> (r: String)
        ensures
            r@ == shebang_commented(code@),
    {
        let v = chars_of(code.as_str());
        if v.len() >= 2 && v[0] == '#' && v[1] == '!' {
            let mut r = owned("// ");
            proof {
                reveal_strlit("// ");
            }
            push_str(&mut r, code.as_str());
            assert(r@ =~= seq!['/', '/', ' '] + code@);
            r
        } else {
            code
        }
    }

    /// Whether a debugging switch read from the environment is on: it is
    /// set to `1` or `true`.
    pub fn env_flag_set(value: Option<&str>) -> (r: bool)
        ensures
            r == (value matches Some(v) && (v@ == "1"@ || v@ == "true"@)),
    {
        match value {
            Some(v) => same_text(v, "1") || same_text(v, "true"),
            None => false,
        }
    }

    /// The script that runs `code` with `args` as its positional
    /// parameters: `set -- "arg"...` on the first line when there are any.
    pub fn script_with_args(code: String, args: &Vec<String>) -> (r: String)
        ensures
            r@ == script_with_args(code@, texts(args@)),
    {
        if args.len() == 0 {
            return code;
        }
        let mut quoted: Vec<String> = Vec::new();
        let mut i: usize = 0;
        while i < args.len()
            invariant
                i <= args@.len(),
                quoted@.len() == i,
                forall|k: int| 0 <= k < i ==> #[trigger] quoted@[k]@ == quoted_argument(args@[k]@),
            decreases args@.len() - i,
        {
            proof {
                reveal_strlit("\"");
                reveal_strlit("\\\"");
                assert("\""@ =~= seq!['"']);
                assert("\\\""@ =~= seq!['\\', '"']);
            }
            let mut q = owned("\"");
            let escaped = replace_text(args[i].as_str(), "\"", "\\\"");
            push_str(&mut q, escaped.as_str());
            push_str(&mut q, "\"");
            assert(q@ =~= quoted_argument(args@[i as int]@));
            quoted.push(q);
            i = i + 1;
        }
        let mut r = owned("set -- ");
        let line = join_texts(&quoted, " ");
        push_str(&mut r, line.as_str());
        push_str(&mut r, "\n");
        push_str(&mut r, code.as_str());
        proof {
            reveal_strlit("set -- ");
            reveal_strlit(" ");
            reveal_strlit("\n");
            let qs = texts(args@).map_values(|a: Seq<char>| quoted_argument(a));
            assert(texts(quoted@) =~= qs);
            assert(" "@ =~= seq![' ']);
            assert(line@ == joined(qs, seq![' ']));
            assert("set -- "@ =~= seq!['s', 'e', 't', ' ', '-', '-', ' ']);
            assert("\n"@ =~= seq!['\n']);
            assert(r@ =~= seq!['s', 'e', 't', ' ', '-', '-', ' '] + joined(qs, seq![' ']) + seq!['\n'] + code@);
        }
        r
    }

    /// A header or footer template with the compiler version filled in.
    pub fn fill_version(template: &str, version: &str) -> (r: String)
        ensures
            r@ == replaced(template@, version_placeholder(), version@),
    {
        proof {
            reveal_strlit("{{ version }}");
        }
        replace_text(template, "{{ version }}", version)
    }

    /// The final script: header, translated code and footer on lines of
    /// their own.
    pub fn assemble_script(header: &str, body: &str, footer: &str) -> (r: String)
        ensures
            r@ == header@ + seq!['\n'] + body@ + seq!['\n'] + footer@,
    {
        let mut r = owned(header);
        push_str(&mut r, "\n");
        push_str(&mut r, body);
        push_str(&mut r, "\n");
        push_str(&mut r, footer);
        proof {
            reveal_strlit("\n");
        }
        assert(r@ =~= header@ + seq!['\n'] + body@ + seq!['\n'] + footer@);
        r
    }

    /// The error reported when a postprocessor fails.
    pub fn postprocessor_failure(name: &str, error: &str) -> (r: String)
        ensures
            r@ == postprocessor_failure_text(name@, error@),
    {
        let mut r = owned("Postprocessor '");
        push_str(&mut r, name);
        push_str(&mut r, "' failed\n");
        let trimmed = trim_end_text(error);
        push_str(&mut r, trimmed.as_str());
        r
    }
}

/// The text of a warning in an evaluation report.
pub open spec fn warning_text(w: Option<Seq<char>>) -> Seq<char> {
    match w {
        Some(m) => m,
        None => "Empty warning"@,
    }
}

/// What an evaluation reports: the warnings' messages one per line (a
/// warning without message reads `Empty warning`), then the script's output
/// and its error output.
pub open spec fn eval_report_text(warnings: Seq<Option<Seq<char>>>, output: Seq<char>, err_output: Seq<char>) -> Seq<char> {
    let log = joined(warnings.map_values(|w: Option<Seq<char>>| warning_text(w)), seq!['\n']);
    (if log.len() == 0 {
        log
    } else {
        log + seq!['\n']
    }) + output + err_output
}

impl AmberCompiler {
    /// The report of an evaluation, from the messages of the compiler's
    /// warnings and what the script wrote to its output and error output.
    pub fn eval_report(warnings: &Vec<Option<String>>, output: &str, err_output: &str) -> (r: String)
        ensures
            r@ == eval_report_text(
                warnings@.map_values(|w: Option<String>| crate::text::opt_string_view(w)),
                output@,
                err_output@,
            ),
    {
        let ghost ws = warnings@.map_values(|w: Option<String>| crate::text::opt_string_view(w));
        let mut lines: Vec<String> = Vec::new();
        let mut i: usize = 0;
        while i < warnings.len()
            invariant
                i <= warnings@.len(),
                ws == warnings@.map_values(|w: Option<String>| crate::text::opt_string_view(w)),
                texts(lines@) == ws.take(i as int).map_values(|w: Option<Seq<char>>| warning_text(w)),
            decreases warnings@.len() - i,
        {
            let ghost before = lines@;
            let line = match &warnings[i] {
                Some(m) => copy_string(m),
                None => owned("Empty warning"),
            };
            lines.push(line);
            proof {
                assert(ws[i as int] == crate::text::opt_string_view(warnings@[i as int]));
                assert(texts(lines@) =~= texts(before).push(line@));
                assert(ws.take(i + 1) =~= ws.take(i as int).push(ws[i as int]));
                assert(ws.take(i + 1).map_values(|w: Option<Seq<char>>| warning_text(w)) =~= ws.take(
                    i as int,
                ).map_values(|w: Option<Seq<char>>| warning_text(w)).push(warning_text(ws[i as int])));
            }
            i = i + 1;
        }
        proof {
            assert(ws.take(warnings@.len() as int) =~= ws);
            reveal_strlit("\n");
        }
        assert("\n"@ =~= seq!['\n']);
        let ghost log = joined(ws.map_values(|w: Option<Seq<char>>| warning_text(w)), seq!['\n']);
        let mut r = join_texts(&lines, "\n");
        assert(r@ == log);
        if r.as_str().unicode_len() > 0 {
            push_str(&mut r, "\n");
        }
        assert(r@ == (if log.len() == 0 { log } else { log + seq!['\n'] }));
        push_str(&mut r, output);
        push_str(&mut r, err_output);
        r
    }
}

/// The files emitted, in order: the imported files in their topological
/// order (`order` holds their indices), skipping those that were not parsed
/// (`parsed[i]` is false), then the main file.
pub open spec fn forest_indices(order: Seq<usize>, parsed: Seq<bool>) -> Seq<usize> {
    order.filter(was_parsed(parsed))
}

/// Whether the file of an index was parsed.
pub open spec fn was_parsed(parsed: Seq<bool>) -> spec_fn(usize) -> bool {
    |i: usize| parsed[i as int]
}

impl AmberCompiler {
    /// The indices of the imported files to emit before the main file (see
    /// [`forest_indices`]).
    pub fn forest_order(order: &Vec<usize>, parsed: &Vec<bool>) -> (r: Vec<usize>)
        requires
            forall|k: int| 0 <= k < order@.len() ==> (#[trigger] order@[k]) < parsed@.len(),
        ensures
            r@ == forest_indices(order@, parsed@),
    {
        let mut r: Vec<usize> = Vec::new();
        let mut k: usize = 0;
        while k < order.len()
            invariant
                k <= order@.len(),
                forall|j: int| 0 <= j < order@.len() ==> (#[trigger] order@[j]) < parsed@.len(),
                r@ == order@.take(k as int).filter(was_parsed(parsed@)),
            decreases order@.len() - k,
        {
            let i = order[k];
            proof {
                reveal(Seq::filter);
                assert(order@.take(k + 1).drop_last() =~= order@.take(k as int));
                assert(order@.take(k + 1).last() == i);
            }
            if parsed[i] {
                r.push(i);
            }
            k = k + 1;
        }
        assert(order@.take(order@.len() as int) =~= order@);
        r
    }

    /// The name under which the main file is emitted: its path, or
    /// `unknown` for code without one.
    pub fn main_path(&self) -> (r: String)
        ensures
            r@ == (match self.path {
                Some(p) => p@,
                None => "unknown"@,
            }),
    {
        match &self.path {
            Some(p) => copy_string(p),
            None => owned("unknown"),
        }
    }
}

/// Why the lexer stopped.
#[derive(Debug, Clone, Copy, PartialEq, Eq, Structural)]
pub enum LexerErrorKind {
    /// A region that must end on its line did not.
    Singleline,
    /// A region was never closed.
    Unclosed,
}

/// The message for a lexer error about the region `what`.
pub open spec fn lexer_error_text(kind: LexerErrorKind, what: Seq<char>) -> Seq<char> {
    match kind {
        LexerErrorKind::Singleline => "Singleline "@ + what + " not closed"@,
        LexerErrorKind::Unclosed => "Unclosed "@ + what,
    }
}

impl AmberCompiler {
    /// The message reported when tokenizing fails on the region `what`.
    pub fn lexer_error_message(kind: LexerErrorKind, what: &str) -> (r: String)
        ensures
            r@ == lexer_error_text(kind, what@),
    {
        match kind {
            LexerErrorKind::Singleline => {
                let mut r = owned("Singleline ");
                push_str(&mut r, what);
                push_str(&mut r, " not closed");
                r
            },
            LexerErrorKind::Unclosed => {
                let mut r = owned("Unclosed ");
                push_str(&mut r, what);
                r
            },
        }
    }
}

/// The line put before a program that uses `sudo`: when not run as root,
/// it picks `sudo`, or else `doas`, as the command that `sudo` modifiers
/// run through.
pub open spec fn sudo_preamble_text() -> Seq<char> {
    "[ \"$EUID\" -ne 0 ] && { { command -v sudo >/dev/null 2>&1 && __sudo=sudo; } || { command -v doas >/dev/null 2>&1 && __sudo=doas; }; }"@
}

/// The statements of a translated program: the sudo preamble when a `sudo`
/// modifier was used anywhere, then each module's translation in order.
pub open spec fn program_lines(sudo_used: bool, blocks: Seq<Seq<char>>) -> Seq<Seq<char>> {
    (if sudo_used {
        seq![sudo_preamble_text()]
    } else {
        Seq::<Seq<char>>::empty()
    }) + blocks
}

/// What the postprocessing pipeline does next.
#[derive(Debug, PartialEq, Eq)]
pub enum PipelineAction {
    /// Pipe the code through the postprocessor at this index.
    Run(usize, String),
    /// Every postprocessor ran: this is the final code.
    Done(String),
    /// A postprocessor failed: this is the error to report.
    Fail(String),
}

pub enum PipelineActionView {
    Run(usize, Seq<char>),
    Done(Seq<char>),
    Fail(Seq<char>),
}

pub open spec fn action_view(a: PipelineAction) -> PipelineActionView {
    match a {
        PipelineAction::Run(i, c) => PipelineActionView::Run(i, c@),
        PipelineAction::Done(c) => PipelineActionView::Done(c@),
        PipelineAction::Fail(e) => PipelineActionView::Fail(e@),
    }
}

/// The next step after the postprocessor at `index` (of `count`, named
/// `name`) gave `outcome`: the next one runs on its output, the pipeline
/// ends after the last one, and the first failure ends it with an error.
pub open spec fn pipeline_next(count: nat, index: nat, name: Seq<char>, outcome: Result<Seq<char>, Seq<char>>) -> PipelineActionView {
    match outcome {
        Ok(code) => if index + 1 < count {
            PipelineActionView::Run((index + 1) as usize, code)
        } else {
            PipelineActionView::Done(code)
        },
        Err(e) => PipelineActionView::Fail(postprocessor_failure_text(name, e)),
    }
}

impl AmberCompiler {
    /// The sudo preamble (see [`sudo_preamble_text`]).
    pub fn sudo_preamble() -> (r: &'static str)
        ensures
            r@ == sudo_preamble_text(),
    {
        "[ \"$EUID\" -ne 0 ] && { { command -v sudo >/dev/null 2>&1 && __sudo=sudo; } || { command -v doas >/dev/null 2>&1 && __sudo=doas; }; }"
    }

    /// The translated program before postprocessing: the statements of
    /// [`program_lines`] for the translations `blocks` of the modules (in
    /// the order of [`AmberCompiler::forest_order`]), one per line.
    pub fn translate_program(sudo_used: bool, blocks: &Vec<String>) -> (r: String)
        ensures
            r@ == joined(program_lines(sudo_used, texts(blocks@)), "\n"@),
    {
        let mut statements: Vec<String> = Vec::new();
        if sudo_used {
            statements.push(owned(Self::sudo_preamble()));
        }
        append_lines(&mut statements, blocks);
        assert(texts(statements@) =~= program_lines(sudo_used, texts(blocks@)));
        join_texts(&statements, "\n")
    }

    /// The first step of postprocessing `code` with `count` postprocessors.
    pub fn pipeline_start(count: usize, code: String) -> (r: PipelineAction)
        ensures
            action_view(r) == (if count > 0 {
                PipelineActionView::Run(0, code@)
            } else {
                PipelineActionView::Done(code@)
            }),
    {
        if count > 0 {
            PipelineAction::Run(0, code)
        } else {
            PipelineAction::Done(code)
        }
    }

    /// The step after the postprocessor at `index` gave `outcome` (see
    /// [`pipeline_next`]).
    pub fn pipeline_step(count: usize, index: usize, name: &str, outcome: Result<String, String>) -> (r: PipelineAction)
        requires
            index < count,
        ensures
            action_view(r) == pipeline_next(count as nat, index as nat, name@, match outcome {
                Ok(c) => Ok(c@),
                Err(e) => Err(e@),
            }),
    {
        match outcome {
            Ok(code) => if index + 1 < count {
                PipelineAction::Run(index + 1, code)
            } else {
                PipelineAction::Done(code)
            },
            Err(e) => PipelineAction::Fail(Self::postprocessor_failure(name, e.as_str())),
        }
    }
}

/// Without arguments the script is the code itself.
pub proof fn law_no_arguments_keep_code(code: Seq<char>)
    ensures
        script_with_args(code, Seq::<Seq<char>>::empty()) == code,
{
}

/// Commenting the shebang never loses code: the result ends with the source.
pub proof fn law_shebang_comment_keeps_code(code: Seq<char>)
    ensures
        shebang_commented(code).subrange(
            shebang_commented(code).len() - code.len(),
            shebang_commented(code).len() as int,
        ) == code,
        !has_shebang(code) ==> shebang_commented(code) == code,
{
    if has_shebang(code) {
        assert(shebang_commented(code).subrange(3, shebang_commented(code).len() as int) =~= code);
    } else {
        assert(code.subrange(0, code.len() as int) =~= code);
    }
}

/// Commenting the shebang twice is commenting it once: the commented
/// source no longer starts with `#!`.
pub proof fn law_shebang_comment_idempotent(code: Seq<char>)
    ensures
        shebang_commented(shebang_commented(code)) == shebang_commented(code),
{
}

} // verus!
