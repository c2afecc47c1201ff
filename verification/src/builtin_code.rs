use vstd::prelude::*;
use crate::builtins::{Cp, Lock, Ls, LsSwitch, Rm, Sleep, ls_switch_flag, ls_switch_var};
use crate::text::{append_lines, owned, push_line, push_str, texts};
use crate::types::Type;

verus! {

/// What the modifiers of a command add around it, as the translation
/// context renders them: the sudo prefix, and the redirections that
/// suppress (`suppress`) or silence (`silent`) its output.
pub struct CommandDecor {
    pub sudo_prefix: String,
    pub suppress: String,
    pub silent: String,
}

pub struct DecorView {
    pub sudo_prefix: Seq<char>,
    pub suppress: Seq<char>,
    pub silent: Seq<char>,
}

impl View for CommandDecor {
    type V = DecorView;

    open spec fn view(&self) -> DecorView {
        DecorView { sudo_prefix: self.sudo_prefix@, suppress: self.suppress@, silent: self.silent@ }
    }
}

/// A variable that a translation introduces: its name, and how the
/// command line reads it.
pub struct ShellVar {
    pub name: String,
    pub read: String,
}

pub struct ShellVarView {
    pub name: Seq<char>,
    pub read: Seq<char>,
}

impl View for ShellVar {
    type V = ShellVarView;

    open spec fn view(&self) -> ShellVarView {
        ShellVarView { name: self.name@, read: self.read@ }
    }
}

pub open spec fn opt_view(o: Option<&str>) -> Option<Seq<char>> {
    match o {
        Some(s) => Some(s@),
        None => None,
    }
}

/// The statement that sets the switch variable `var` to `flag` when the
/// boolean expression `expr` holds, and to nothing otherwise.
pub open spec fn switch_setup(expr: Seq<char>, var: Seq<char>, flag: Seq<char>) -> Seq<char> {
    "(( "@ + expr + " )) && "@ + var + "=\""@ + flag + "\" || "@ + var + "=\"\""@
}

/// The setup statement of an optional switch (none when the switch is not
/// given: its variable then stays empty).
pub open spec fn optional_setup(expr: Option<Seq<char>>, var: Seq<char>, flag: Seq<char>) -> Seq<Seq<char>> {
    match expr {
        Some(e) => seq![switch_setup(e, var, flag)],
        None => Seq::empty(),
    }
}

/// The translation of `rm(path, recursive?, force?)`: the statements that
/// come before the command, and the command.
pub open spec fn rm_code(
    path: Seq<char>,
    recursive: Option<Seq<char>>,
    force: Option<Seq<char>>,
    recursive_var: ShellVarView,
    force_var: ShellVarView,
    decor: DecorView,
) -> (Seq<Seq<char>>, Seq<char>) {
    (
        optional_setup(recursive, recursive_var.name, "-r"@) + optional_setup(force, force_var.name, "-f"@),
        decor.sudo_prefix + "rm "@ + force_var.read + " "@ + recursive_var.read + " "@ + path + decor.suppress
            + decor.silent,
    )
}

/// The lines of `cp(source, destination, force?)`: the statements before
/// the command, the command, then the failure handler's lines.
pub open spec fn cp_code(
    source: Seq<char>,
    destination: Seq<char>,
    force: Option<Seq<char>>,
    force_var: ShellVarView,
    decor: DecorView,
    handler: Seq<Seq<char>>,
) -> (Seq<Seq<char>>, Seq<Seq<char>>) {
    (
        optional_setup(force, force_var.name, "-f"@),
        seq![
            decor.sudo_prefix + "cp -r "@ + force_var.read + " "@ + source + " "@ + destination + decor.suppress
                + decor.silent,
        ] + handler,
    )
}

/// `text` preceded by a space, or nothing when it is empty.
pub open spec fn spaced(text: Seq<char>) -> Seq<char> {
    if text.len() == 0 {
        Seq::empty()
    } else {
        seq![' '] + text
    }
}

/// The lines of `sleep(value)`: sleep when the run-time test `check`
/// (value >= 0) holds, else report the negative value (`report`) and fail;
/// the failure handler's lines follow.
pub open spec fn sleep_code(
    check: Seq<char>,
    value_var: Seq<char>,
    report: Seq<char>,
    decor: DecorView,
    indent: Seq<char>,
    handler: Seq<Seq<char>>,
) -> Seq<Seq<char>> {
    seq![
        "if [ "@ + check + " != 0 ]; then"@,
        indent + "sleep "@ + value_var + spaced(decor.silent) + spaced(decor.suppress),
        "else"@,
        indent + report + decor.silent + decor.suppress,
        indent + "false"@,
        "fi"@,
    ] + handler
}

/// How `sleep` tests that its value is not negative.
#[derive(Debug, Clone, Copy, PartialEq, Eq, Structural)]
pub enum SleepCheck {
    /// Integer arithmetic on an `Int` value.
    Integer,
    /// A floating-point computation on a `Num` value.
    Float,
}

/// The statements of `ls(path?, all?, recursive?)` (whose value id is `id`)
/// and the array that holds the listing.
pub open spec fn ls_code(
    id: nat,
    all: Option<Seq<char>>,
    recursive: Option<Seq<char>>,
    path_var: ShellVarView,
    array_var: ShellVarView,
    decor: DecorView,
    handler: Seq<Seq<char>>,
) -> (Seq<Seq<char>>, Seq<char>) {
    let all_var = ls_switch_var(id, LsSwitch::All);
    let rec_var = ls_switch_var(id, LsSwitch::Recursive);
    let all_use = if all is Some { " ${"@ + all_var + "}"@ } else { Seq::empty() };
    let rec_use = if recursive is Some { " ${"@ + rec_var + "}"@ } else { Seq::empty() };
    (
        seq![path_var.name + "=\"${"@ + path_var.name + "//\\\\/\\\\\\\\}\""@]
            + optional_setup(all, all_var, ls_switch_flag(LsSwitch::All))
            + optional_setup(recursive, rec_var, ls_switch_flag(LsSwitch::Recursive))
            + seq![
            "IFS=$'\\n' read -rd '' -a "@ + array_var.name + " < <(IFS=$'\\n';"@ + decor.sudo_prefix + "ls -1"@
                + all_use + rec_use + " "@ + path_var.read + decor.suppress,
        ] + handler + seq![")"@],
        array_var.read,
    )
}

/// The lines of `lock(path?)`: take the lock file `lock_var` (created only
/// if it does not exist yet), register it for removal when the script
/// exits, or fail; the failure handler's lines follow.
pub open spec fn lock_code(lock_var: Seq<char>, indent: Seq<char>, handler: Seq<Seq<char>>) -> Seq<Seq<char>> {
    seq![
        "if ( set -o noclobber; echo $$ > \""@ + lock_var + "\" ) 2>/dev/null; then"@,
        indent + "touch \""@ + lock_var + "\""@,
        indent + "if [ -z \"${__amber_cleanup_files+x}\" ]; then __amber_cleanup_files=( \""@ + lock_var
            + "\" ); else __amber_cleanup_files+=( \""@ + lock_var + "\" ); fi\n"@,
        indent + lock_trap_line(),
        "else"@,
        indent + "false"@,
        "fi"@,
    ] + handler
}

/// The statement that installs, once, the trap removing the registered
/// lock files on exit.
pub open spec fn lock_trap_line() -> Seq<char> {
    "if [ -z \"${__amber_cleanup_trap_installed+x}\" ]; then __amber_cleanup_trap_installed=1; trap 'for __amber_cleanup_file in \"${__amber_cleanup_files[@]}\"; do rm -f -- \"$__amber_cleanup_file\"; done' EXIT; fi"@
}

/// Adds the setup statement of an optional switch to `out`.
fn push_optional_setup(out: &mut Vec<String>, expr: Option<&str>, var: &str, flag: &str)
    ensures
        texts(final(out)@) == texts(old(out)@) + optional_setup(opt_view(expr), var@, flag@),
{
    let ghost before = texts(out@);
    match expr {
        Some(e) => {
            let mut l = owned("(( ");
            push_str(&mut l, e);
            push_str(&mut l, " )) && ");
            push_str(&mut l, var);
            push_str(&mut l, "=\"");
            push_str(&mut l, flag);
            push_str(&mut l, "\" || ");
            push_str(&mut l, var);
            push_line(out, l.as_str(), "=\"\"");
            assert(texts(out@) =~= before + optional_setup(opt_view(expr), var@, flag@));
        },
        None => {
            assert(texts(out@) =~= before + optional_setup(opt_view(expr), var@, flag@));
        },
    }
}

/// Appends ` ` and `text` to `s` when `text` is not empty.
fn push_spaced(s: &mut String, text: &str)
    ensures
        final(s)@ == old(s)@ + spaced(text@),
{
    if text.unicode_len() > 0 {
        push_str(s, " ");
        push_str(s, text);
        proof {
            reveal_strlit(" ");
        }
        assert(old(s)@ + " "@ + text@ =~= old(s)@ + spaced(text@));
    } else {
        assert(old(s)@ =~= old(s)@ + spaced(text@));
    }
}

impl Rm {
    /// The translation (see [`rm_code`]) for the translated `path` and
    /// optional switch expressions, the switch variables and the decor.
    pub fn translate(
        &self,
        path: &str,
        recursive: Option<&str>,
        force: Option<&str>,
        recursive_var: &ShellVar,
        force_var: &ShellVar,
        decor: &CommandDecor,
    ) -> (r: (Vec<String>, String))
        ensures
            (texts(r.0@), r.1@) == rm_code(path@, opt_view(recursive), opt_view(force), recursive_var@, force_var@, decor@),
    {
        let mut queued: Vec<String> = Vec::new();
        push_optional_setup(&mut queued, recursive, recursive_var.name.as_str(), "-r");
        push_optional_setup(&mut queued, force, force_var.name.as_str(), "-f");
        let mut cmd = owned(decor.sudo_prefix.as_str());
        push_str(&mut cmd, "rm ");
        push_str(&mut cmd, force_var.read.as_str());
        push_str(&mut cmd, " ");
        push_str(&mut cmd, recursive_var.read.as_str());
        push_str(&mut cmd, " ");
        push_str(&mut cmd, path);
        push_str(&mut cmd, decor.suppress.as_str());
        push_str(&mut cmd, decor.silent.as_str());
        assert(texts(queued@) =~= rm_code(path@, opt_view(recursive), opt_view(force), recursive_var@, force_var@, decor@).0);
        (queued, cmd)
    }
}

impl Cp {
    /// The translation (see [`cp_code`]) for the translated paths, the
    /// optional force expression, its variable, the decor and the failure
    /// handler's lines.
    pub fn translate(
        &self,
        source: &str,
        destination: &str,
        force: Option<&str>,
        force_var: &ShellVar,
        decor: &CommandDecor,
        handler: &Vec<String>,
    ) -> (r: (Vec<String>, Vec<String>))
        ensures
            (texts(r.0@), texts(r.1@)) == cp_code(source@, destination@, opt_view(force), force_var@, decor@, texts(handler@)),
    {
        let mut queued: Vec<String> = Vec::new();
        push_optional_setup(&mut queued, force, force_var.name.as_str(), "-f");
        let mut cmd = owned(decor.sudo_prefix.as_str());
        push_str(&mut cmd, "cp -r ");
        push_str(&mut cmd, force_var.read.as_str());
        push_str(&mut cmd, " ");
        push_str(&mut cmd, source);
        push_str(&mut cmd, " ");
        push_str(&mut cmd, destination);
        push_str(&mut cmd, decor.suppress.as_str());
        let mut lines: Vec<String> = Vec::new();
        push_line(&mut lines, cmd.as_str(), decor.silent.as_str());
        append_lines(&mut lines, handler);
        assert(texts(queued@) =~= cp_code(source@, destination@, opt_view(force), force_var@, decor@, texts(handler@)).0);
        assert(texts(lines@) =~= cp_code(source@, destination@, opt_view(force), force_var@, decor@, texts(handler@)).1);
        (queued, lines)
    }
}

impl Sleep {
    /// How the value is tested: integer arithmetic for an `Int`, a
    /// floating-point computation otherwise.
    pub fn check_kind(&self) -> (r: SleepCheck)
        ensures
            r == (if self.value is Int {
                SleepCheck::Integer
            } else {
                SleepCheck::Float
            }),
    {
        match self.value {
            Type::Int => SleepCheck::Integer,
            _ => SleepCheck::Float,
        }
    }

    /// The lines (see [`sleep_code`]) for the rendered test `check` of the
    /// kind [`Sleep::check_kind`] gives, the value's variable, the place of
    /// the value in the source (if known), the decor, one level of
    /// indentation and the failure handler's lines.
    pub fn translate(
        &self,
        check: &str,
        value_var: &str,
        location: Option<&str>,
        decor: &CommandDecor,
        indent: &str,
        handler: &Vec<String>,
    ) -> (r: Vec<String>)
        ensures
            texts(r@) == sleep_code(
                check@,
                value_var@,
                "echo \"Sleep value needs to be >= 0 (at "@ + (match location {
                    Some(l) => l@,
                    None => "unknown"@,
                }) + ")\" >&2"@,
                decor@,
                indent@,
                texts(handler@),
            ),
    {
        let report = Sleep::negative_value_report(location);
        let mut r: Vec<String> = Vec::new();
        let mut head = owned("if [ ");
        push_str(&mut head, check);
        push_line(&mut r, head.as_str(), " != 0 ]; then");
        let mut cmd = owned(indent);
        push_str(&mut cmd, "sleep ");
        push_str(&mut cmd, value_var);
        push_spaced(&mut cmd, decor.silent.as_str());
        push_spaced(&mut cmd, decor.suppress.as_str());
        push_line(&mut r, cmd.as_str(), "");
        push_line(&mut r, "else", "");
        let mut err = owned(indent);
        push_str(&mut err, report.as_str());
        push_str(&mut err, decor.silent.as_str());
        push_line(&mut r, err.as_str(), decor.suppress.as_str());
        push_line(&mut r, indent, "false");
        push_line(&mut r, "fi", "");
        append_lines(&mut r, handler);
        proof {
            reveal_strlit("");
        }
        assert(texts(r@) =~= sleep_code(check@, value_var@, report@, decor@, indent@, texts(handler@)));
        r
    }
}

impl Ls {
    /// The statements and the result array (see [`ls_code`]) for the value
    /// id `id`, the translated switch expressions, the path and array
    /// variables, the decor and the failure handler's lines.
    pub fn translate(
        &self,
        id: usize,
        all: Option<&str>,
        recursive: Option<&str>,
        path_var: &ShellVar,
        array_var: &ShellVar,
        decor: &CommandDecor,
        handler: &Vec<String>,
    ) -> (r: (Vec<String>, String))
        ensures
            (texts(r.0@), r.1@) == ls_code(
                id as nat,
                opt_view(all),
                opt_view(recursive),
                path_var@,
                array_var@,
                decor@,
                texts(handler@),
            ),
    {
        let mut queued: Vec<String> = Vec::new();
        let escape = Ls::escape_line(path_var.name.as_str());
        push_line(&mut queued, escape.as_str(), "");
        let mut read = Ls::read_head(array_var.name.as_str());
        push_str(&mut read, decor.sudo_prefix.as_str());
        push_str(&mut read, "ls -1");
        match all {
            Some(e) => {
                let (setup, usage) = Ls::switch_snippets(id, LsSwitch::All, e);
                push_line(&mut queued, setup.as_str(), "");
                push_str(&mut read, usage.as_str());
            },
            None => {},
        }
        match recursive {
            Some(e) => {
                let (setup, usage) = Ls::switch_snippets(id, LsSwitch::Recursive, e);
                push_line(&mut queued, setup.as_str(), "");
                push_str(&mut read, usage.as_str());
            },
            None => {},
        }
        push_str(&mut read, " ");
        push_str(&mut read, path_var.read.as_str());
        push_line(&mut queued, read.as_str(), decor.suppress.as_str());
        append_lines(&mut queued, handler);
        push_line(&mut queued, ")", "");
        let out = owned(array_var.read.as_str());
        proof {
            reveal_strlit("");
        }
        assert(texts(queued@) =~= ls_code(
            id as nat,
            opt_view(all),
            opt_view(recursive),
            path_var@,
            array_var@,
            decor@,
            texts(handler@),
        ).0);
        (queued, out)
    }
}

impl Lock {
    /// The lines (see [`lock_code`]) for the lock file's variable as the
    /// command reads it, one level of indentation and the failure handler's
    /// lines.  The lock file is the given path, or [`Lock::default_path`].
    pub fn translate(&self, lock_var: &str, indent: &str, handler: &Vec<String>) -> (r: Vec<String>)
        ensures
            texts(r@) == lock_code(lock_var@, indent@, texts(handler@)),
    {
        let mut r: Vec<String> = Vec::new();
        let mut l = owned("if ( set -o noclobber; echo $$ > \"");
        push_str(&mut l, lock_var);
        push_line(&mut r, l.as_str(), "\" ) 2>/dev/null; then");
        let mut l = owned(indent);
        push_str(&mut l, "touch \"");
        push_str(&mut l, lock_var);
        push_line(&mut r, l.as_str(), "\"");
        let mut l = owned(indent);
        push_str(&mut l, "if [ -z \"${__amber_cleanup_files+x}\" ]; then __amber_cleanup_files=( \"");
        push_str(&mut l, lock_var);
        push_str(&mut l, "\" ); else __amber_cleanup_files+=( \"");
        push_str(&mut l, lock_var);
        push_line(&mut r, l.as_str(), "\" ); fi\n");
        push_line(
            &mut r,
            indent,
            "if [ -z \"${__amber_cleanup_trap_installed+x}\" ]; then __amber_cleanup_trap_installed=1; trap 'for __amber_cleanup_file in \"${__amber_cleanup_files[@]}\"; do rm -f -- \"$__amber_cleanup_file\"; done' EXIT; fi",
        );
        push_line(&mut r, "else", "");
        push_line(&mut r, indent, "false");
        push_line(&mut r, "fi", "");
        append_lines(&mut r, handler);
        proof {
            reveal_strlit("");
        }
        assert(texts(r@) =~= lock_code(lock_var@, indent@, texts(handler@)));
        r
    }
}

/// Whether `part` occurs in `text`.
pub open spec fn holds_text(text: Seq<char>, part: Seq<char>) -> bool {
    exists|k: int| 0 <= k && k + part.len() <= text.len() && #[trigger] text.subrange(k, k + part.len()) == part
}

/// Every switch of `ls` that is given reaches the listing: its variable is
/// set from the switch's expression before the command, and the `ls -1`
/// command line (the statement after the path escape and the setups, which
/// reads the listing into the array) reads that variable.
pub proof fn law_ls_switches_reach_the_command(
    id: nat,
    all: Option<Seq<char>>,
    recursive: Option<Seq<char>>,
    path_var: ShellVarView,
    array_var: ShellVarView,
    decor: DecorView,
    handler: Seq<Seq<char>>,
)
    ensures
        ({
            let q = ls_code(id, all, recursive, path_var, array_var, decor, handler).0;
            let n_all: int = if all is Some { 1 } else { 0 };
            let n_rec: int = if recursive is Some { 1 } else { 0 };
            let read = q[1 + n_all + n_rec];
            &&& q.len() == 3 + n_all + n_rec + handler.len()
            &&& read.subrange(0, ("IFS=$'\\n' read -rd '' -a "@ + array_var.name).len() as int) == "IFS=$'\\n' read -rd '' -a "@ + array_var.name
            &&& holds_text(read, "ls -1"@)
            &&& (all matches Some(e) ==> q[1] == switch_setup(e, ls_switch_var(id, LsSwitch::All), "-A"@)
                && holds_text(read, " ${"@ + ls_switch_var(id, LsSwitch::All) + "}"@))
            &&& (recursive matches Some(e) ==> q[1 + n_all] == switch_setup(e, ls_switch_var(id, LsSwitch::Recursive), "-R"@)
                && holds_text(read, " ${"@ + ls_switch_var(id, LsSwitch::Recursive) + "}"@))
        }),
{
    reveal_strlit("-A");
    reveal_strlit("-R");
    let all_var = ls_switch_var(id, LsSwitch::All);
    let rec_var = ls_switch_var(id, LsSwitch::Recursive);
    let all_use = if all is Some { " ${"@ + all_var + "}"@ } else { Seq::empty() };
    let rec_use = if recursive is Some { " ${"@ + rec_var + "}"@ } else { Seq::empty() };
    let head = "IFS=$'\\n' read -rd '' -a "@ + array_var.name + " < <(IFS=$'\\n';"@ + decor.sudo_prefix;
    let read = "IFS=$'\\n' read -rd '' -a "@ + array_var.name + " < <(IFS=$'\\n';"@ + decor.sudo_prefix + "ls -1"@
        + all_use + rec_use + " "@ + path_var.read + decor.suppress;
    let q = ls_code(id, all, recursive, path_var, array_var, decor, handler).0;
    let n_all: int = if all is Some { 1 } else { 0 };
    let n_rec: int = if recursive is Some { 1 } else { 0 };
    let esc = seq![path_var.name + "=\"${"@ + path_var.name + "//\\\\/\\\\\\\\}\""@];
    let setups = optional_setup(all, all_var, ls_switch_flag(LsSwitch::All))
        + optional_setup(recursive, rec_var, ls_switch_flag(LsSwitch::Recursive));
    assert(q =~= esc + setups + seq![read] + handler + seq![")"@]);
    assert(setups.len() == n_all + n_rec);
    assert(q[1 + n_all + n_rec] == read);
    let pre = "IFS=$'\\n' read -rd '' -a "@ + array_var.name;
    assert(read.subrange(0, pre.len() as int) =~= pre);
    let k0 = head.len() as int;
    assert(read.subrange(k0, k0 + "ls -1"@.len()) =~= "ls -1"@);
    if all is Some {
        let k = (head + "ls -1"@).len() as int;
        assert(read.subrange(k, k + all_use.len()) =~= all_use);
        assert(q[1] == setups[0]);
    }
    if recursive is Some {
        let k = (head + "ls -1"@ + all_use).len() as int;
        assert(read.subrange(k, k + rec_use.len()) =~= rec_use);
        assert(q[1 + n_all] == setups[n_all]);
    }
}

} // verus!
