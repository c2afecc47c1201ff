use vstd::prelude::*;
use crate::flag_registry::{
    FlagRegistry, FlagState, ParseState, RegistryState, fresh_flag, initial_parse_state, parse_run,
    separator, law_separator_splits_arguments,
};
use crate::text::{copy_texts, owned, push_str, texts};

verus! {

/// What the command line asks the compiler to do.
#[derive(Debug, PartialEq, Eq)]
pub enum CliAction {
    /// Compile and run `code` (the standard library imported first), passing
    /// it `args`.
    Eval { code: String, args: Vec<String> },
    /// `-e` was given without code.
    MissingEvalCode,
    /// Generate the documentation of `input`.
    Docs { input: String },
    /// `docs` was given without an input file.
    MissingDocsInput,
    /// Compile and run the file `input`, passing it `args`.
    Run { input: String, args: Vec<String> },
    /// Compile the file `input` into the file `output`.
    Build { input: String, output: String },
    /// Show how to use the compiler.
    Usage,
}

/// The mathematical content of a [`CliAction`].
pub enum CliActionView {
    Eval { code: Seq<char>, args: Seq<Seq<char>> },
    MissingEvalCode,
    Docs { input: Seq<char> },
    MissingDocsInput,
    Run { input: Seq<char>, args: Seq<Seq<char>> },
    Build { input: Seq<char>, output: Seq<char> },
    Usage,
}

impl View for CliAction {
    type V = CliActionView;

    open spec fn view(&self) -> CliActionView {
        match self {
            CliAction::Eval { code, args } => CliActionView::Eval { code: code@, args: texts(args@) },
            CliAction::MissingEvalCode => CliActionView::MissingEvalCode,
            CliAction::Docs { input } => CliActionView::Docs { input: input@ },
            CliAction::MissingDocsInput => CliActionView::MissingDocsInput,
            CliAction::Run { input, args } => CliActionView::Run { input: input@, args: texts(args@) },
            CliAction::Build { input, output } => CliActionView::Build { input: input@, output: output@ },
            CliAction::Usage => CliActionView::Usage,
        }
    }
}

/// How a line of the usage text is rendered.
#[derive(Clone, Copy, Debug, PartialEq, Eq, Structural)]
pub enum UsageStyle {
    Plain,
    /// White on black.
    Banner,
    Bold,
    Dimmed,
}

/// The code put before evaluated code: the whole standard library.
pub open spec fn eval_prelude() -> Seq<char> {
    "import * from \"std\"\n"@
}

/// The flags of the command line, registered over `flags`.
pub open spec fn cli_flags(flags: Map<Seq<char>, FlagState>) -> Map<Seq<char>, FlagState> {
    flags.insert("-e"@, fresh_flag(true)).insert("docs"@, fresh_flag(true)).insert("-h"@, fresh_flag(false)).insert(
        "--help"@,
        fresh_flag(false),
    )
}

pub open spec fn triggered_in(flags: Map<Seq<char>, FlagState>, name: Seq<char>) -> bool {
    flags.contains_key(name) && flags[name].triggered
}

/// What a parsed command line asks for.  The first positional argument is
/// the program's own name; `extra` are the arguments after `--`.
pub open spec fn cli_action(st: ParseState, extra: Seq<Seq<char>>) -> CliActionView {
    if triggered_in(st.flags, "-e"@) {
        match st.flags["-e"@].value {
            Some(code) => CliActionView::Eval { code: eval_prelude() + code, args: extra },
            None => CliActionView::MissingEvalCode,
        }
    } else if triggered_in(st.flags, "docs"@) {
        match st.flags["docs"@].value {
            Some(input) => CliActionView::Docs { input },
            None => CliActionView::MissingDocsInput,
        }
    } else if st.positional.len() >= 3 {
        CliActionView::Build { input: st.positional[1], output: st.positional[2] }
    } else if st.positional.len() == 2 {
        CliActionView::Run { input: st.positional[1], args: extra }
    } else {
        CliActionView::Usage
    }
}

/// The usage text, line by line.
pub open spec fn usage_text(name: Seq<char>, version: Seq<char>, exe: Seq<char>, ext: Seq<char>) -> Seq<
    (UsageStyle, Seq<char>),
> {
    seq![
        (UsageStyle::Plain, name + "'s compiler"@),
        (UsageStyle::Plain, "Version "@ + version + "\n"@),
        (UsageStyle::Banner, " USAGE "@),
        (UsageStyle::Bold, "For evaluation:"@),
        (UsageStyle::Plain, "  "@ + exe + " [INPUT]"@),
        (UsageStyle::Dimmed, "  "@ + exe + " foo"@ + ext + "\n"@),
        (UsageStyle::Plain, "  "@ + exe + " -e [EXPR]"@),
        (UsageStyle::Dimmed, "  "@ + exe + " -e \"\\$echo Hello World\\$\"\n"@),
        (UsageStyle::Bold, "For compiling:"@),
        (UsageStyle::Plain, "  "@ + exe + " [INPUT] [OUTPUT]"@),
        (UsageStyle::Dimmed, "  "@ + exe + " foo"@ + ext + " bar"@ + ext + "\n"@),
        (UsageStyle::Bold, "For documentation generation:"@),
        (UsageStyle::Plain, "  "@ + exe + " docs [INPUT]"@),
        (UsageStyle::Dimmed, "  "@ + exe + " docs foo"@ + ext + "\n"@),
        (UsageStyle::Plain, "  "@ + exe + " docs [INPUT] [OUTPUT DIR]"@),
        (UsageStyle::Dimmed, "  "@ + exe + " docs foo"@ + ext + " docs/"@),
    ]
}

/// The mathematical content of a [`CLI`].
pub struct CliState {
    pub args: Seq<Seq<char>>,
    pub flags: RegistryState,
    pub name: Seq<char>,
    pub exe_name: Seq<char>,
    pub version: Seq<char>,
    pub ext: Seq<char>,
}

/// The command line interface of the compiler.
pub struct CLI {
    args: Vec<String>,
    flags: FlagRegistry,
    name: String,
    exe_name: String,
    version: String,
    ext: String,
}

impl View for CLI {
    type V = CliState;

    closed spec fn view(&self) -> CliState {
        CliState {
            args: texts(self.args@),
            flags: self.flags@,
            name: self.name@,
            exe_name: self.exe_name@,
            version: self.version@,
            ext: self.ext@,
        }
    }
}

/// `a + b`.
fn concat2(a: &str, b: &str) -> (r: String)
    ensures
        r@ == a@ + b@,
{
    let mut r = owned(a);
    push_str(&mut r, b);
    r
}

/// `a + b + c`.
fn concat3(a: &str, b: &str, c: &str) -> (r: String)
    ensures
        r@ == a@ + b@ + c@,
{
    let mut r = owned(a);
    push_str(&mut r, b);
    push_str(&mut r, c);
    r
}

/// `a + b + c + d + e`.
fn concat5(a: &str, b: &str, c: &str, d: &str, e: &str) -> (r: String)
    ensures
        r@ == a@ + b@ + c@ + d@ + e@,
{
    let mut r = concat3(a, b, c);
    push_str(&mut r, d);
    push_str(&mut r, e);
    r
}

impl CLI {
    /// A command line interface of the given compiler version, with no
    /// flags registered yet.
    pub fn new(version: String) -> (r: Self)
        ensures
            r@.args == Seq::<Seq<char>>::empty(),
            r@.flags.flags == Map::<Seq<char>, FlagState>::empty(),
            r@.flags.args == Seq::<Seq<char>>::empty(),
            r@.name == "Amber"@,
            r@.exe_name == "amber"@,
            r@.version == version@,
            r@.ext == ".ab"@,
    {
        let r = CLI {
            args: Vec::new(),
            flags: FlagRegistry::new(),
            name: owned("Amber"),
            exe_name: owned("amber"),
            version,
            ext: owned(".ab"),
        };
        assert(texts(r.args@) =~= Seq::<Seq<char>>::empty());
        r
    }

    /// Reads the command line `argv` (the program's name first): registers
    /// the flags `-e` and `docs` (each with a value), `-h` and `--help`,
    /// parses `argv`, and says what was asked for.
    pub fn run(&mut self, argv: Vec<String>) -> (action: CliAction)
        ensures
            ({
                let st = parse_run(initial_parse_state(cli_flags(old(self)@.flags.flags)), texts(argv@));
                &&& action@ == cli_action(st, old(self)@.flags.args + st.extra)
                &&& final(self)@.args == st.positional
                &&& final(self)@.flags.flags == st.flags
                &&& final(self)@.flags.args == old(self)@.flags.args + st.extra
                &&& final(self)@.name == old(self)@.name
                &&& final(self)@.exe_name == old(self)@.exe_name
                &&& final(self)@.version == old(self)@.version
                &&& final(self)@.ext == old(self)@.ext
            }),
    {
        self.flags.register("-e", true);
        self.flags.register("docs", true);
        self.flags.register("-h", false);
        self.flags.register("--help", false);
        let positional = self.flags.parse(argv);
        self.args = positional;
        let ghost st = parse_run(initial_parse_state(cli_flags(old(self)@.flags.flags)), texts(argv@));
        let ghost extra = old(self)@.flags.args + st.extra;
        assert(self.flags@.args == extra);
        if self.flags.flag_triggered("-e") {
            match self.flags.get_flag("-e") {
                Some(flag) => match &flag.value {
                    Some(code) => {
                        let code = concat2("import * from \"std\"\n", code.as_str());
                        assert(code@ =~= eval_prelude() + st.flags["-e"@].value->0);
                        let given = self.flags.get_args();
                        let args = copy_texts(given.as_slice());
                        CliAction::Eval { code, args }
                    },
                    None => CliAction::MissingEvalCode,
                },
                None => CliAction::MissingEvalCode,
            }
        } else if self.flags.flag_triggered("docs") {
            match self.flags.get_flag("docs") {
                Some(flag) => match &flag.value {
                    Some(input) => CliAction::Docs { input: owned(input.as_str()) },
                    None => CliAction::MissingDocsInput,
                },
                None => CliAction::MissingDocsInput,
            }
        } else if self.args.len() >= 3 {
            CliAction::Build { input: owned(self.args[1].as_str()), output: owned(self.args[2].as_str()) }
        } else if self.args.len() == 2 {
            let given = self.flags.get_args();
            let args = copy_texts(given.as_slice());
            CliAction::Run { input: owned(self.args[1].as_str()), args }
        } else {
            CliAction::Usage
        }
    }

    /// The usage text, shown when no input was given.
    pub fn usage(&self) -> (r: Vec<(UsageStyle, String)>)
        ensures
            r@.map_values(|l: (UsageStyle, String)| (l.0, l.1@)) == usage_text(
                self@.name,
                self@.version,
                self@.exe_name,
                self@.ext,
            ),
    {
        let exe = self.exe_name.as_str();
        let ext = self.ext.as_str();
        let mut r: Vec<(UsageStyle, String)> = Vec::new();
        r.push((UsageStyle::Plain, concat2(self.name.as_str(), "'s compiler")));
        r.push((UsageStyle::Plain, concat3("Version ", self.version.as_str(), "\n")));
        r.push((UsageStyle::Banner, owned(" USAGE ")));
        r.push((UsageStyle::Bold, owned("For evaluation:")));
        r.push((UsageStyle::Plain, concat3("  ", exe, " [INPUT]")));
        r.push((UsageStyle::Dimmed, concat5("  ", exe, " foo", ext, "\n")));
        r.push((UsageStyle::Plain, concat3("  ", exe, " -e [EXPR]")));
        r.push((UsageStyle::Dimmed, concat3("  ", exe, " -e \"\\$echo Hello World\\$\"\n")));
        r.push((UsageStyle::Bold, owned("For compiling:")));
        r.push((UsageStyle::Plain, concat3("  ", exe, " [INPUT] [OUTPUT]")));
        let mut compiled = concat5("  ", exe, " foo", ext, " bar");
        push_str(&mut compiled, ext);
        push_str(&mut compiled, "\n");
        r.push((UsageStyle::Dimmed, compiled));
        r.push((UsageStyle::Bold, owned("For documentation generation:")));
        r.push((UsageStyle::Plain, concat3("  ", exe, " docs [INPUT]")));
        r.push((UsageStyle::Dimmed, concat5("  ", exe, " docs foo", ext, "\n")));
        r.push((UsageStyle::Plain, concat3("  ", exe, " docs [INPUT] [OUTPUT DIR]")));
        r.push((UsageStyle::Dimmed, concat5("  ", exe, " docs foo", ext, " docs/")));
        assert(r@.map_values(|l: (UsageStyle, String)| (l.0, l.1@)) =~= usage_text(
            self@.name,
            self@.version,
            self@.exe_name,
            self@.ext,
        ));
        r
    }
}

/// Arguments after `--` reach the script unchanged: a fresh command line
/// interface given `PROGRAM FILE -- ARGS...`, where neither `PROGRAM` nor
/// `FILE` is one of its flags or `--`, runs `FILE` with exactly `ARGS`.
pub proof fn law_script_arguments_pass_through(program: Seq<char>, file: Seq<char>, args: Seq<Seq<char>>)
    requires
        !cli_flags(Map::empty()).contains_key(program),
        program != separator(),
        !cli_flags(Map::empty()).contains_key(file),
        file != separator(),
    ensures
        ({
            let st = parse_run(
                initial_parse_state(cli_flags(Map::empty())),
                seq![program, file, separator()] + args,
            );
            cli_action(st, Seq::<Seq<char>>::empty() + st.extra) == (CliActionView::Run { input: file, args })
        }),
{
    let flags = cli_flags(Map::<Seq<char>, FlagState>::empty());
    let p = seq![program, file];
    reveal_strlit("-e");
    reveal_strlit("docs");
    reveal_strlit("-h");
    reveal_strlit("--help");
    assert("-e"@[1] != separator()[1]);
    assert("-h"@[1] != separator()[1]);
    assert("docs"@.len() != separator().len());
    assert("--help"@.len() != separator().len());
    assert(!flags.contains_key(separator()));
    assert(p + seq![separator()] + args =~= seq![program, file, separator()] + args);
    law_separator_splits_arguments(flags, p, args);
    let st = parse_run(initial_parse_state(flags), seq![program, file, separator()] + args);
    assert(!st.flags["-e"@].triggered);
    assert(!st.flags["docs"@].triggered);
    assert(Seq::<Seq<char>>::empty() + st.extra =~= args);
}

} // verus!
