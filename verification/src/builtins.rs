use vstd::prelude::*;
use crate::text::{decimal, owned, push_str, usize_to_text};
use crate::types::{Type, name_of_type};
use crate::docs::DocumentationModule;

verus! {

/// A type error reported by a builtin: a message and an optional comment.
#[derive(Debug, PartialEq, Eq)]
pub struct TypeError {
    pub message: String,
    pub comment: Option<String>,
}

/// The mathematical content of a [`TypeError`].
pub struct TypeErrorView {
    pub message: Seq<char>,
    pub comment: Option<Seq<char>>,
}

impl View for TypeError {
    type V = TypeErrorView;

    open spec fn view(&self) -> TypeErrorView {
        TypeErrorView { message: self.message@, comment: crate::text::opt_string_view(self.comment) }
    }
}

/// The outcome of a type check, by its view.
pub open spec fn check_view(r: Result<(), TypeError>) -> Result<(), TypeErrorView> {
    match r {
        Ok(()) => Ok(()),
        Err(e) => Err(e@),
    }
}

pub open spec fn opt_type(t: Option<&Type>) -> Option<Type> {
    match t {
        Some(x) => Some(*x),
        None => None,
    }
}

/// A mismatch: `message`, with the comment naming the given and the
/// expected type.
pub open spec fn mismatch(message: Seq<char>, given: Type, expected: Seq<char>) -> TypeErrorView {
    TypeErrorView {
        message,
        comment: Some("Given type: "@ + name_of_type(given) + ", expected type: "@ + expected),
    }
}

fn mismatch_error(message: &str, given: &Type, expected: &str) -> (r: TypeError)
    ensures
        r@ == mismatch(message@, *given, expected@),
{
    let mut comment = owned("Given type: ");
    let name = given.to_text();
    push_str(&mut comment, name.as_str());
    push_str(&mut comment, ", expected type: ");
    push_str(&mut comment, expected);
    TypeError { message: owned(message), comment: Some(comment) }
}

/// `Ok` when `t` is `Text`, else the mismatch `message`.
pub open spec fn expect_text(message: Seq<char>, t: Type) -> Result<(), TypeErrorView> {
    if t is Text {
        Ok(())
    } else {
        Err(mismatch(message, t, "Text"@))
    }
}

/// `Ok` when `t` is `Bool`, else the mismatch `message`.
pub open spec fn expect_bool(message: Seq<char>, t: Type) -> Result<(), TypeErrorView> {
    if t is Bool {
        Ok(())
    } else {
        Err(mismatch(message, t, "Bool"@))
    }
}

/// The first failure of `a` and `b`, checked in that order.
pub open spec fn then_check(a: Result<(), TypeErrorView>, b: Result<(), TypeErrorView>) -> Result<(), TypeErrorView> {
    if a is Err {
        a
    } else {
        b
    }
}

/// An optional argument passes when absent.
pub open spec fn optional_check(t: Option<Type>, check: spec_fn(Type) -> Result<(), TypeErrorView>) -> Result<(), TypeErrorView> {
    match t {
        Some(x) => check(x),
        None => Ok(()),
    }
}

fn check_text(message: &str, t: &Type) -> (r: Result<(), TypeError>)
    ensures
        check_view(r) == expect_text(message@, *t),
{
    if t.is_text() {
        Ok(())
    } else {
        Err(mismatch_error(message, t, "Text"))
    }
}

fn check_bool(message: &str, t: &Type) -> (r: Result<(), TypeError>)
    ensures
        check_view(r) == expect_bool(message@, *t),
{
    if t.is_bool() {
        Ok(())
    } else {
        Err(mismatch_error(message, t, "Bool"))
    }
}

fn check_optional_bool(message: &str, t: Option<&Type>) -> (r: Result<(), TypeError>)
    ensures
        check_view(r) == optional_check(opt_type(t), |x: Type| expect_bool(message@, x)),
{
    match t {
        Some(x) => check_bool(message, x),
        None => Ok(()),
    }
}

fn check_optional_text(message: &str, t: Option<&Type>) -> (r: Result<(), TypeError>)
    ensures
        check_view(r) == optional_check(opt_type(t), |x: Type| expect_text(message@, x)),
{
    match t {
        Some(x) => check_text(message, x),
        None => Ok(()),
    }
}

/// The error for a failing builtin written without a failure handler:
/// `name` is the builtin, `noun` says whether it is a `command` or a
/// `builtin`.
pub open spec fn unhandled_failure_error(name: Seq<char>, noun: Seq<char>) -> TypeErrorView {
    TypeErrorView {
        message: "The `"@ + name + "` "@ + noun
            + " can fail and requires explicit failure handling. Use '?', 'failed', 'succeeded', or 'exited' to manage its result."@,
        comment: Some(
            "You can use '?' to propagate failure, 'failed' block to handle failure, 'succeeded' block to handle success, 'exited' block to handle both, or 'trust' modifier to ignore results"@,
        ),
    }
}

/// The error reported when the builtin `name` (a `command` or a `builtin`,
/// as `noun` says) is not followed by a failure handler.
pub fn unhandled_failure(name: &str, noun: &str) -> (r: TypeError)
    ensures
        r@ == unhandled_failure_error(name@, noun@),
{
    let mut message = owned("The `");
    push_str(&mut message, name);
    push_str(&mut message, "` ");
    push_str(&mut message, noun);
    push_str(
        &mut message,
        " can fail and requires explicit failure handling. Use '?', 'failed', 'succeeded', or 'exited' to manage its result.",
    );
    TypeError {
        message,
        comment: Some(
            owned(
                "You can use '?' to propagate failure, 'failed' block to handle failure, 'succeeded' block to handle success, 'exited' block to handle both, or 'trust' modifier to ignore results",
            ),
        ),
    }
}

pub open spec fn cd_check(value: Type) -> Result<(), TypeErrorView> {
    expect_text("Builtin function `cd` can only be used with values of type Text"@, value)
}

/// `cd(path)`, by the type of its argument.
pub struct Cd {
    pub value: Type,
}

impl Cd {
    /// The path must be `Text`.
    pub fn typecheck(&self) -> (r: Result<(), TypeError>)
        ensures
            check_view(r) == cd_check(self.value),
    {
        check_text("Builtin function `cd` can only be used with values of type Text", &self.value)
    }
}

pub open spec fn cp_check(source: Type, destination: Type, force: Option<Type>) -> Result<(), TypeErrorView> {
    let m = "Builtin function `cp` can only be used with values of type Text"@;
    then_check(
        expect_text(m, source),
        then_check(
            expect_text(m, destination),
            optional_check(
                force,
                |x: Type| expect_bool("Builtin function `cp` can only be used with 3rd argument of type Bool"@, x),
            ),
        ),
    )
}

/// `cp(source, destination, force?)`, by the types of its arguments.
pub struct Cp {
    pub source: Type,
    pub destination: Type,
    pub force: Option<Type>,
}

impl Cp {
    /// The paths are `Text`, `force` is `Bool`.
    pub fn typecheck(&self) -> (r: Result<(), TypeError>)
        ensures
            check_view(r) == cp_check(self.source, self.destination, self.force),
    {
        let m = "Builtin function `cp` can only be used with values of type Text";
        check_text(m, &self.source)?;
        check_text(m, &self.destination)?;
        check_optional_bool("Builtin function `cp` can only be used with 3rd argument of type Bool", self.force.as_ref())
    }
}

pub open spec fn exit_check(code: Option<Type>) -> Result<(), TypeErrorView> {
    match code {
        Some(t) => if t is Int {
            Ok(())
        } else {
            Err(mismatch("Builtin function `exit` can only be used with values of type Int"@, t, "Int"@))
        },
        None => Ok(()),
    }
}

/// `exit(code?)`, by the type of its argument.
pub struct Exit {
    pub code: Option<Type>,
}

impl Exit {
    /// The exit code is an `Int`.
    pub fn typecheck(&self) -> (r: Result<(), TypeError>)
        ensures
            check_view(r) == exit_check(self.code),
    {
        match &self.code {
            Some(t) => if t.is_int() {
                Ok(())
            } else {
                Err(mismatch_error("Builtin function `exit` can only be used with values of type Int", t, "Int"))
            },
            None => Ok(()),
        }
    }
}

pub open spec fn ls_check(path: Option<Type>, all: Option<Type>, recursive: Option<Type>) -> Result<(), TypeErrorView> {
    then_check(
        optional_check(path, |x: Type| expect_text("Builtin function `ls` can only be used with 1st argument of type Text"@, x)),
        then_check(
            optional_check(all, |x: Type| expect_bool("Builtin function `ls` can only be used with 2nd argument of type Bool"@, x)),
            optional_check(recursive, |x: Type| expect_bool("Builtin function `ls` can only be used with 3rd argument of type Bool"@, x)),
        ),
    )
}

/// A switch of `ls`.
#[derive(Debug, Clone, Copy, PartialEq, Eq, Structural)]
pub enum LsSwitch {
    /// List entries starting with a dot too (`-A`).
    All,
    /// List subdirectories too (`-R`).
    Recursive,
}

/// The variable that holds a switch of the `ls` with value id `id`.
pub open spec fn ls_switch_var(id: nat, switch: LsSwitch) -> Seq<char> {
    match switch {
        LsSwitch::All => "__ls_all_"@ + decimal(id),
        LsSwitch::Recursive => "__ls_rec_"@ + decimal(id),
    }
}

/// The `ls` option of a switch.
pub open spec fn ls_switch_flag(switch: LsSwitch) -> Seq<char> {
    match switch {
        LsSwitch::All => "-A"@,
        LsSwitch::Recursive => "-R"@,
    }
}

/// `ls(path?, all?, recursive?)`, by the types of its arguments.
pub struct Ls {
    pub value: Option<Type>,
    pub all: Option<Type>,
    pub recursive: Option<Type>,
}

impl Ls {
    /// The path is `Text`, the switches `Bool`.
    pub fn typecheck(&self) -> (r: Result<(), TypeError>)
        ensures
            check_view(r) == ls_check(self.value, self.all, self.recursive),
    {
        check_optional_text("Builtin function `ls` can only be used with 1st argument of type Text", self.value.as_ref())?;
        check_optional_bool("Builtin function `ls` can only be used with 2nd argument of type Bool", self.all.as_ref())?;
        check_optional_bool("Builtin function `ls` can only be used with 3rd argument of type Bool", self.recursive.as_ref())
    }

    /// The directory listed when none is given.
    pub fn default_path() -> (r: &'static str)
        ensures
            r@ == "."@,
    {
        "."
    }

    /// The shell line that doubles the backslashes in the path variable
    /// `name`, so that the listing reads them literally.
    pub fn escape_line(name: &str) -> (r: String)
        ensures
            r@ == name@ + "=\"${"@ + name@ + "//\\\\/\\\\\\\\}\""@,
    {
        let mut r = owned(name);
        push_str(&mut r, "=\"${");
        push_str(&mut r, name);
        push_str(&mut r, "//\\\\/\\\\\\\\}\"");
        r
    }

    /// For the `all` (`-A`) or `recursive` (`-R`) switch given as the
    /// translated expression `expr`: the line that sets its variable
    /// (`__ls_all_{id}` or `__ls_rec_{id}`), and what the `ls` command
    /// line holds for it.
    pub fn switch_snippets(id: usize, switch: LsSwitch, expr: &str) -> (r: (String, String))
        ensures
            ({
                let var = ls_switch_var(id as nat, switch);
                let flag = ls_switch_flag(switch);
                &&& r.0@ == "(( "@ + expr@ + " )) && "@ + var + "=\""@ + flag + "\" || "@ + var + "=\"\""@
                &&& r.1@ == " ${"@ + var + "}"@
            }),
    {
        let mut var = match switch {
            LsSwitch::All => owned("__ls_all_"),
            LsSwitch::Recursive => owned("__ls_rec_"),
        };
        let digits = usize_to_text(id);
        push_str(&mut var, digits.as_str());
        let flag = match switch {
            LsSwitch::All => "-A",
            LsSwitch::Recursive => "-R",
        };
        let mut setup = owned("(( ");
        push_str(&mut setup, expr);
        push_str(&mut setup, " )) && ");
        push_str(&mut setup, var.as_str());
        push_str(&mut setup, "=\"");
        push_str(&mut setup, flag);
        push_str(&mut setup, "\" || ");
        push_str(&mut setup, var.as_str());
        push_str(&mut setup, "=\"\"");
        let mut usage = owned(" ${");
        push_str(&mut usage, var.as_str());
        push_str(&mut usage, "}");
        (setup, usage)
    }

    /// The start of the command that reads the listing, one entry per
    /// line, into the array `name`.
    pub fn read_head(name: &str) -> (r: String)
        ensures
            r@ == "IFS=$'\\n' read -rd '' -a "@ + name@ + " < <(IFS=$'\\n';"@,
    {
        let mut r = owned("IFS=$'\\n' read -rd '' -a ");
        push_str(&mut r, name);
        push_str(&mut r, " < <(IFS=$'\\n';");
        r
    }

    /// `ls` gives the list of the entries' names.
    pub fn get_type(&self) -> (r: Type)
        ensures
            r == Type::Array(Box::new(Type::Text)),
    {
        Type::array_of(Type::Text)
    }
}

pub open spec fn lock_check(path: Option<Type>) -> Result<(), TypeErrorView> {
    optional_check(path, |x: Type| expect_text("Builtin function `lock` can only be used with values of type Text"@, x))
}

/// `lock(path?)`, by the type of its argument.
pub struct Lock {
    pub path: Option<Type>,
}

impl Lock {
    /// The lock file used when no path is given: the script's name with
    /// `.lock`, in `$TMPDIR` (or `/tmp`).
    pub fn default_path() -> (r: &'static str)
        ensures
            r@ == "${TMPDIR:-/tmp}/${0##*/}.lock"@,
    {
        "${TMPDIR:-/tmp}/${0##*/}.lock"
    }

    /// The lock file's path is `Text`.
    pub fn typecheck(&self) -> (r: Result<(), TypeError>)
        ensures
            check_view(r) == lock_check(self.path),
    {
        check_optional_text("Builtin function `lock` can only be used with values of type Text", self.path.as_ref())
    }
}

pub open spec fn mv_check(source: Type, destination: Type) -> Result<(), TypeErrorView> {
    let m = "Builtin function `mv` can only be used with values of type Text"@;
    then_check(expect_text(m, source), expect_text(m, destination))
}

/// `mv(source, destination)`, by the types of its arguments.
pub struct Mv {
    pub source: Type,
    pub destination: Type,
}

impl Mv {
    /// Both paths are `Text`.
    pub fn typecheck(&self) -> (r: Result<(), TypeError>)
        ensures
            check_view(r) == mv_check(self.source, self.destination),
    {
        let m = "Builtin function `mv` can only be used with values of type Text";
        check_text(m, &self.source)?;
        check_text(m, &self.destination)
    }
}

pub open spec fn rm_check(value: Type, recursive: Option<Type>, force: Option<Type>) -> Result<(), TypeErrorView> {
    then_check(
        expect_text("Builtin function `rm` can only be used with 1st argument of type Text"@, value),
        then_check(
            optional_check(
                recursive,
                |x: Type| expect_bool("Builtin function `rm` can only be used with optional 2nd argument of type Bool"@, x),
            ),
            optional_check(force, |x: Type| expect_bool("Builtin function `rm` can only be used with 3rd argument of type Bool"@, x)),
        ),
    )
}

/// `rm(path, recursive?, force?)`, by the types of its arguments.
pub struct Rm {
    pub value: Type,
    pub recursive: Option<Type>,
    pub force: Option<Type>,
}

impl Rm {
    /// The path is `Text`, the switches `Bool`.
    pub fn typecheck(&self) -> (r: Result<(), TypeError>)
        ensures
            check_view(r) == rm_check(self.value, self.recursive, self.force),
    {
        check_text("Builtin function `rm` can only be used with 1st argument of type Text", &self.value)?;
        check_optional_bool("Builtin function `rm` can only be used with optional 2nd argument of type Bool", self.recursive.as_ref())?;
        check_optional_bool("Builtin function `rm` can only be used with 3rd argument of type Bool", self.force.as_ref())
    }
}

pub open spec fn rmdir_check(value: Type, ignore_non_empty: Type) -> Result<(), TypeErrorView> {
    then_check(
        if value matches Type::Array(inner) && *inner is Text {
            Ok(())
        } else {
            Err(mismatch("Builtin function `rmdir` can only be used with 1st argument of type [Text]"@, value, "[Text]"@))
        },
        expect_bool("Builtin function `rmdir` can only be used with 2nd argument of type Bool"@, ignore_non_empty),
    )
}

/// `rmdir(paths, ignore_non_empty)`, by the types of its arguments.
pub struct RmDir {
    pub value: Type,
    pub ignore_non_empty: Type,
}

impl RmDir {
    /// The paths are `[Text]`, the switch is `Bool`.
    pub fn typecheck(&self) -> (r: Result<(), TypeError>)
        ensures
            check_view(r) == rmdir_check(self.value, self.ignore_non_empty),
    {
        if !self.value.is_array_of_text() {
            return Err(mismatch_error("Builtin function `rmdir` can only be used with 1st argument of type [Text]", &self.value, "[Text]"));
        }
        check_bool("Builtin function `rmdir` can only be used with 2nd argument of type Bool", &self.ignore_non_empty)
    }
}

pub open spec fn sleep_check(value: Type) -> Result<(), TypeErrorView> {
    if value is Int || value is Num {
        Ok(())
    } else {
        Err(mismatch("Builtin function `sleep` can only be used with values of type Int or Num"@, value, "Int or Num"@))
    }
}

/// `sleep(seconds)`, by the type of its argument.
pub struct Sleep {
    pub value: Type,
}

impl Sleep {
    /// The duration is an `Int` or a `Num`.
    pub fn typecheck(&self) -> (r: Result<(), TypeError>)
        ensures
            check_view(r) == sleep_check(self.value),
    {
        if self.value.is_int() || self.value.is_num() {
            Ok(())
        } else {
            Err(mismatch_error("Builtin function `sleep` can only be used with values of type Int or Num", &self.value, "Int or Num"))
        }
    }

    /// The shell command that reports a negative duration at run time,
    /// naming where the `sleep` stands (`unknown` when that is not known).
    pub fn negative_value_report(location: Option<&str>) -> (r: String)
        ensures
            r@ == "echo \"Sleep value needs to be >= 0 (at "@ + (match location {
                Some(l) => l@,
                None => "unknown"@,
            }) + ")\" >&2"@,
    {
        let mut r = owned("echo \"Sleep value needs to be >= 0 (at ");
        match location {
            Some(l) => push_str(&mut r, l),
            None => push_str(&mut r, "unknown"),
        }
        push_str(&mut r, ")\" >&2");
        r
    }
}

pub open spec fn touch_check(value: Type) -> Result<(), TypeErrorView> {
    expect_text("Builtin function `touch` can only be used with values of type Text"@, value)
}

/// `touch(path)`, by the type of its argument.
pub struct Touch {
    pub value: Type,
}

impl Touch {
    /// The path is `Text`.
    pub fn typecheck(&self) -> (r: Result<(), TypeError>)
        ensures
            check_view(r) == touch_check(self.value),
    {
        check_text("Builtin function `touch` can only be used with values of type Text", &self.value)
    }
}

pub open spec fn await_check(pids: Type) -> Result<(), TypeErrorView> {
    if (pids matches Type::Array(inner) && *inner is Int) || pids is Int {
        Ok(())
    } else {
        Err(mismatch("Builtin function `await` can only be used with values of type Int or [Int]"@, pids, "Int or [Int]"@))
    }
}

/// `await(pids)`, by the type of its argument.
pub struct Await {
    pub pids: Type,
}

impl Await {
    /// One process id (`Int`) or several (`[Int]`).
    pub fn typecheck(&self) -> (r: Result<(), TypeError>)
        ensures
            check_view(r) == await_check(self.pids),
    {
        if self.pids.is_array_of_int() || self.pids.is_int() {
            Ok(())
        } else {
            Err(mismatch_error("Builtin function `await` can only be used with values of type Int or [Int]", &self.pids, "Int or [Int]"))
        }
    }
}

pub open spec fn len_check(value: Type) -> Result<(), TypeErrorView> {
    if value is Text || value is Array {
        Ok(())
    } else {
        Err(TypeErrorView { message: "Length can only be applied to text or array types"@, comment: None })
    }
}

/// `len value`, by the type of its operand.
pub struct Len {
    pub value: Type,
}

impl Len {
    /// The value is text or an array.
    pub fn typecheck(&self) -> (r: Result<(), TypeError>)
        ensures
            check_view(r) == len_check(self.value),
    {
        if self.value.is_text() || self.value.is_array() {
            Ok(())
        } else {
            Err(TypeError { message: owned("Length can only be applied to text or array types"), comment: None })
        }
    }

    /// A length is an `Int`.
    pub fn get_type(&self) -> (r: Type)
        ensures
            r == Type::Int,
    {
        Type::Int
    }
}

pub open spec fn lines_check(path: Type) -> Result<(), TypeErrorView> {
    if path is Text {
        Ok(())
    } else {
        Err(TypeErrorView {
            message: "Expected value of type 'Text' but got '"@ + name_of_type(path) + "'"@,
            comment: None,
        })
    }
}

/// `lines(path)`, by the type of its argument (always given once parsed).
pub struct LinesInvocation {
    pub path: Option<Type>,
}

/// The lines around the producer of `lines(path)`: a FIFO is made, the
/// producer writes the file into it in the background, and a loop appends
/// each line read from it to the array `array`.
pub open spec fn lines_reader(temp: Seq<char>, fifo: Seq<char>, pid: Seq<char>, array: Seq<char>, indent: Seq<char>) -> (
    Seq<Seq<char>>,
    Seq<Seq<char>>,
) {
    (
        seq![fifo + "=$(mktemp -u) || exit 1"@, "mkfifo \"$"@ + fifo + "\" || exit 1"@],
        seq![
            pid + "=$!"@,
            "while IFS= read -r "@ + temp + " || [ -n \"$"@ + temp + "\" ]; do"@,
            indent + array + "+=(\"$"@ + temp + "\")"@,
            "done <\"$"@ + fifo + "\""@,
            "wait $"@ + pid,
            "rm -f \"$"@ + fifo + "\""@,
        ],
    )
}

impl LinesInvocation {
    /// The shell lines before and after the producer (see
    /// [`lines_reader`]), for the line variable `temp`, the FIFO variable
    /// `fifo`, the producer's process id variable `pid`, the result array
    /// `array` and one level of indentation `indent`.
    pub fn reader_lines(temp: &str, fifo: &str, pid: &str, array: &str, indent: &str) -> (r: (Vec<String>, Vec<String>))
        ensures
            (r.0@.map_values(|l: String| l@), r.1@.map_values(|l: String| l@)) == lines_reader(
                temp@,
                fifo@,
                pid@,
                array@,
                indent@,
            ),
    {
        let mut before: Vec<String> = Vec::new();
        let mut l = owned(fifo);
        push_str(&mut l, "=$(mktemp -u) || exit 1");
        before.push(l);
        let mut l = owned("mkfifo \"$");
        push_str(&mut l, fifo);
        push_str(&mut l, "\" || exit 1");
        before.push(l);
        let mut after: Vec<String> = Vec::new();
        let mut l = owned(pid);
        push_str(&mut l, "=$!");
        after.push(l);
        let mut l = owned("while IFS= read -r ");
        push_str(&mut l, temp);
        push_str(&mut l, " || [ -n \"$");
        push_str(&mut l, temp);
        push_str(&mut l, "\" ]; do");
        after.push(l);
        let mut l = owned(indent);
        push_str(&mut l, array);
        push_str(&mut l, "+=(\"$");
        push_str(&mut l, temp);
        push_str(&mut l, "\")");
        after.push(l);
        let mut l = owned("done <\"$");
        push_str(&mut l, fifo);
        push_str(&mut l, "\"");
        after.push(l);
        let mut l = owned("wait $");
        push_str(&mut l, pid);
        after.push(l);
        let mut l = owned("rm -f \"$");
        push_str(&mut l, fifo);
        push_str(&mut l, "\"");
        after.push(l);
        assert(before@.map_values(|l: String| l@) =~= lines_reader(temp@, fifo@, pid@, array@, indent@).0);
        assert(after@.map_values(|l: String| l@) =~= lines_reader(temp@, fifo@, pid@, array@, indent@).1);
        (before, after)
    }

    /// The path is `Text`.
    pub fn typecheck(&self) -> (r: Result<(), TypeError>)
        requires
            self.path is Some,
        ensures
            check_view(r) == lines_check(self.path->0),
    {
        let path = match &self.path {
            Some(p) => p,
            None => {
                return Ok(());
            },
        };
        if path.is_text() {
            Ok(())
        } else {
            let mut message = owned("Expected value of type 'Text' but got '");
            let name = path.to_text();
            push_str(&mut message, name.as_str());
            push_str(&mut message, "'");
            Err(TypeError { message, comment: None })
        }
    }

    /// `lines` gives the list of the file's lines.
    pub fn get_type(&self) -> (r: Type)
        ensures
            r == Type::Array(Box::new(Type::Text)),
    {
        Type::array_of(Type::Text)
    }
}

/// `disown(pids?)`, by the type of its argument.
pub struct Disown {
    pub pids: Option<Type>,
}

/// The shell lines of `disown`: without pids, the last background job; with
/// pids kept in the variable `pids_var` (an array or a single id), a loop
/// over them with the variable `pid_var`.
pub open spec fn disown_lines(pids: Option<Type>, pids_var: Seq<char>, pid_var: Seq<char>) -> Seq<Seq<char>> {
    match pids {
        None => seq!["disown 2>/dev/null || true"@],
        Some(t) => seq![
            "for "@ + pid_var + " in "@ + (if t is Array {
                "\"${"@ + pids_var + "[@]}\""@
            } else {
                "\"${"@ + pids_var + "}\""@
            }) + "; do"@,
            "disown $"@ + pid_var + " 2>/dev/null || true"@,
            "done"@,
        ],
    }
}

impl Disown {
    /// The shell lines (see [`disown_lines`]); the loop body is indented
    /// by the caller.
    pub fn translate_lines(&self, pids_var: &str, pid_var: &str) -> (r: Vec<String>)
        ensures
            r@.map_values(|l: String| l@) == disown_lines(self.pids, pids_var@, pid_var@),
    {
        let mut r: Vec<String> = Vec::new();
        match &self.pids {
            None => {
                r.push(owned("disown 2>/dev/null || true"));
            },
            Some(t) => {
                let mut head = owned("for ");
                push_str(&mut head, pid_var);
                push_str(&mut head, " in ");
                push_str(&mut head, "\"${");
                push_str(&mut head, pids_var);
                if t.is_array() {
                    push_str(&mut head, "[@]}\"");
                } else {
                    push_str(&mut head, "}\"");
                }
                push_str(&mut head, "; do");
                proof {
                    reveal_strlit("\"${");
                    reveal_strlit("[@]}\"");
                    reveal_strlit("}\"");
                }
                assert(head@ =~= "for "@ + pid_var@ + " in "@ + (if *t is Array {
                    "\"${"@ + pids_var@ + "[@]}\""@
                } else {
                    "\"${"@ + pids_var@ + "}\""@
                }) + "; do"@);
                r.push(head);
                let mut body = owned("disown $");
                push_str(&mut body, pid_var);
                push_str(&mut body, " 2>/dev/null || true");
                r.push(body);
                r.push(owned("done"));
            },
        }
        assert(r@.map_values(|l: String| l@) =~= disown_lines(self.pids, pids_var@, pid_var@));
        r
    }
}

/// `pid()`: the process id of the last background command.
pub struct Pid {}

impl Pid {
    pub fn get_type(&self) -> (r: Type)
        ensures
            r == Type::Int,
    {
        Type::Int
    }
}

/// `pwd()`: the working directory.
pub struct Pwd {}

impl Pwd {
    pub fn get_type(&self) -> (r: Type)
        ensures
            r == Type::Text,
    {
        Type::Text
    }
}

/// `shellname()`: the name of the running shell.
pub struct Shellname {}

impl Shellname {
    pub fn get_type(&self) -> (r: Type)
        ensures
            r == Type::Text,
    {
        Type::Text
    }
}

/// `shellversion()`: the version of the running shell, part by part.
pub struct Shellversion {}

impl Shellversion {
    pub fn get_type(&self) -> (r: Type)
        ensures
            r == Type::Array(Box::new(Type::Int)),
    {
        Type::array_of(Type::Int)
    }
}

/// What reading an environment variable gave.
#[derive(Debug, PartialEq, Eq)]
pub enum EnvLookup {
    Present(String),
    NotPresent,
    /// Set, but not valid Unicode.
    NotUnicode,
}

/// The value of `param(name, default?)`: the environment variable `name`,
/// else the default, else an error naming the variable.
pub open spec fn param_value(name: Seq<char>, lookup: EnvLookup, default: Option<Seq<char>>) -> Result<Seq<char>, Seq<char>> {
    match lookup {
        EnvLookup::Present(v) => Ok(v@),
        EnvLookup::NotPresent => match default {
            Some(d) => Ok(d),
            None => Err(name + ": no such environment variable"@),
        },
        EnvLookup::NotUnicode => Err(name + ": unreadable environment variable"@),
    }
}

/// `param(name, default?)`: the value of an environment variable when the
/// script is compiled.
pub struct Param {
    pub value: String,
}

impl Param {
    /// The value for the variable `name`, from what reading it gave and the
    /// optional default (see [`param_value`]).
    pub fn resolve_value(name: &str, lookup: EnvLookup, default: Option<String>) -> (r: Result<String, String>)
        ensures
            match r {
                Ok(v) => param_value(name@, lookup, crate::text::opt_string_view(default)) == Ok::<
                    Seq<char>,
                    Seq<char>,
                >(v@),
                Err(e) => param_value(name@, lookup, crate::text::opt_string_view(default)) == Err::<
                    Seq<char>,
                    Seq<char>,
                >(e@),
            },
    {
        match lookup {
            EnvLookup::Present(v) => Ok(v),
            EnvLookup::NotPresent => match default {
                Some(d) => Ok(d),
                None => {
                    let mut e = owned(name);
                    push_str(&mut e, ": no such environment variable");
                    Err(e)
                },
            },
            EnvLookup::NotUnicode => {
                let mut e = owned(name);
                push_str(&mut e, ": unreadable environment variable");
                Err(e)
            },
        }
    }

    /// An environment variable's value is text.
    pub fn get_type(&self) -> (r: Type)
        ensures
            r == Type::Text,
    {
        Type::Text
    }
}

/// `nameof(name)`: the name a variable or function has in the output.
pub struct Nameof {
    pub name: String,
}

/// The error of `nameof` on a function whose parameters are not all of a
/// concrete type.
pub open spec fn strict_typing_error(name: Seq<char>) -> TypeErrorView {
    TypeErrorView {
        message: "Function '"@ + name + "' must be strictly typed to be used with 'nameof'."@,
        comment: Some("All function parameters have to be of concrete type"@),
    }
}

impl Nameof {
    pub fn get_type(&self) -> (r: Type)
        ensures
            r == Type::Text,
    {
        Type::Text
    }

    /// A function named by `nameof` must have every parameter of a
    /// concrete type (`strict[i]` for parameter `i`).
    pub fn validate_strict_typing(&self, strict: &Vec<bool>) -> (r: Result<(), TypeError>)
        ensures
            check_view(r) == (if forall|i: int| 0 <= i < strict@.len() ==> #[trigger] strict@[i] {
                Ok::<(), TypeErrorView>(())
            } else {
                Err(strict_typing_error(self.name@))
            }),
    {
        let mut i: usize = 0;
        while i < strict.len()
            invariant
                i <= strict@.len(),
                forall|k: int| 0 <= k < i ==> #[trigger] strict@[k],
            decreases strict@.len() - i,
        {
            if !strict[i] {
                let mut message = owned("Function '");
                push_str(&mut message, self.name.as_str());
                push_str(&mut message, "' must be strictly typed to be used with 'nameof'.");
                return Err(TypeError { message, comment: Some(owned("All function parameters have to be of concrete type")) });
            }
            i = i + 1;
        }
        Ok(())
    }
}

/// A part of an interpolated text literal: plain text or an interpolated
/// expression.
#[derive(Debug, PartialEq, Eq)]
pub enum TextPart {
    Plain(String),
    Interpolation,
}

pub open spec fn plain_parts(parts: Seq<TextPart>) -> bool {
    forall|i: int| 0 <= i < parts.len() ==> #[trigger] parts[i] is Plain
}

/// The concatenated text of plain parts.
pub open spec fn parts_text(parts: Seq<TextPart>) -> Seq<char>
    decreases parts.len(),
{
    if parts.len() == 0 {
        Seq::empty()
    } else {
        parts_text(parts.drop_last()) + match parts.last() {
            TextPart::Plain(s) => s@,
            TextPart::Interpolation => Seq::empty(),
        }
    }
}

impl Param {
    /// The variable name written in `param(...)`: its text, which must hold
    /// no interpolation.
    pub fn parse_name(parts: &Vec<TextPart>) -> (r: Result<String, String>)
        ensures
            match r {
                Ok(name) => plain_parts(parts@) && name@ == parts_text(parts@),
                Err(e) => !plain_parts(parts@) && e@ == "Only plain strings are allowed in param()"@,
            },
    {
        let mut name = String::new();
        let mut i: usize = 0;
        while i < parts.len()
            invariant
                i <= parts@.len(),
                plain_parts(parts@.take(i as int)),
                name@ == parts_text(parts@.take(i as int)),
            decreases parts@.len() - i,
        {
            assert(parts@.take(i + 1).drop_last() =~= parts@.take(i as int));
            match &parts[i] {
                TextPart::Plain(s) => {
                    push_str(&mut name, s.as_str());
                },
                TextPart::Interpolation => {
                    assert(!(parts@[i as int] is Plain));
                    return Err(owned("Only plain strings are allowed in param()"));
                },
            }
            assert(plain_parts(parts@.take(i + 1))) by {
                assert forall|k: int| 0 <= k < i + 1 implies #[trigger] parts@.take(i + 1)[k] is Plain by {
                    if k < i {
                        assert(parts@.take(i + 1)[k] == parts@.take(i as int)[k]);
                    }
                }
            }
            i = i + 1;
        }
        assert(parts@.take(parts@.len() as int) =~= parts@);
        Ok(name)
    }
}

impl<M> DocumentationModule<M> for Cd {
    /// Builtins add nothing to the documentation.
    fn document(&self, meta: &M) -> (r: String)
        ensures
            r@ == Seq::<char>::empty(),
    {
        String::new()
    }
}

impl<M> DocumentationModule<M> for Cp {
    /// Builtins add nothing to the documentation.
    fn document(&self, meta: &M) -> (r: String)
        ensures
            r@ == Seq::<char>::empty(),
    {
        String::new()
    }
}

impl<M> DocumentationModule<M> for Exit {
    /// Builtins add nothing to the documentation.
    fn document(&self, meta: &M) -> (r: String)
        ensures
            r@ == Seq::<char>::empty(),
    {
        String::new()
    }
}

impl<M> DocumentationModule<M> for Ls {
    /// Builtins add nothing to the documentation.
    fn document(&self, meta: &M) -> (r: String)
        ensures
            r@ == Seq::<char>::empty(),
    {
        String::new()
    }
}

impl<M> DocumentationModule<M> for Lock {
    /// Builtins add nothing to the documentation.
    fn document(&self, meta: &M) -> (r: String)
        ensures
            r@ == Seq::<char>::empty(),
    {
        String::new()
    }
}

impl<M> DocumentationModule<M> for Mv {
    /// Builtins add nothing to the documentation.
    fn document(&self, meta: &M) -> (r: String)
        ensures
            r@ == Seq::<char>::empty(),
    {
        String::new()
    }
}

impl<M> DocumentationModule<M> for Rm {
    /// Builtins add nothing to the documentation.
    fn document(&self, meta: &M) -> (r: String)
        ensures
            r@ == Seq::<char>::empty(),
    {
        String::new()
    }
}

impl<M> DocumentationModule<M> for RmDir {
    /// Builtins add nothing to the documentation.
    fn document(&self, meta: &M) -> (r: String)
        ensures
            r@ == Seq::<char>::empty(),
    {
        String::new()
    }
}

impl<M> DocumentationModule<M> for Sleep {
    /// Builtins add nothing to the documentation.
    fn document(&self, meta: &M) -> (r: String)
        ensures
            r@ == Seq::<char>::empty(),
    {
        String::new()
    }
}

impl<M> DocumentationModule<M> for Touch {
    /// Builtins add nothing to the documentation.
    fn document(&self, meta: &M) -> (r: String)
        ensures
            r@ == Seq::<char>::empty(),
    {
        String::new()
    }
}

impl<M> DocumentationModule<M> for Await {
    /// Builtins add nothing to the documentation.
    fn document(&self, meta: &M) -> (r: String)
        ensures
            r@ == Seq::<char>::empty(),
    {
        String::new()
    }
}

impl<M> DocumentationModule<M> for Len {
    /// Builtins add nothing to the documentation.
    fn document(&self, meta: &M) -> (r: String)
        ensures
            r@ == Seq::<char>::empty(),
    {
        String::new()
    }
}

impl<M> DocumentationModule<M> for LinesInvocation {
    /// Builtins add nothing to the documentation.
    fn document(&self, meta: &M) -> (r: String)
        ensures
            r@ == Seq::<char>::empty(),
    {
        String::new()
    }
}

impl<M> DocumentationModule<M> for Pid {
    /// Builtins add nothing to the documentation.
    fn document(&self, meta: &M) -> (r: String)
        ensures
            r@ == Seq::<char>::empty(),
    {
        String::new()
    }
}

impl<M> DocumentationModule<M> for Pwd {
    /// Builtins add nothing to the documentation.
    fn document(&self, meta: &M) -> (r: String)
        ensures
            r@ == Seq::<char>::empty(),
    {
        String::new()
    }
}

impl<M> DocumentationModule<M> for Shellversion {
    /// Builtins add nothing to the documentation.
    fn document(&self, meta: &M) -> (r: String)
        ensures
            r@ == Seq::<char>::empty(),
    {
        String::new()
    }
}

impl<M> DocumentationModule<M> for Shellname {
    /// Builtins add nothing to the documentation.
    fn document(&self, meta: &M) -> (r: String)
        ensures
            r@ == Seq::<char>::empty(),
    {
        String::new()
    }
}

impl<M> DocumentationModule<M> for Nameof {
    /// Builtins add nothing to the documentation.
    fn document(&self, meta: &M) -> (r: String)
        ensures
            r@ == Seq::<char>::empty(),
    {
        String::new()
    }
}

impl<M> DocumentationModule<M> for Param {
    /// Builtins add nothing to the documentation.
    fn document(&self, meta: &M) -> (r: String)
        ensures
            r@ == Seq::<char>::empty(),
    {
        String::new()
    }
}

impl<M> DocumentationModule<M> for Disown {
    /// Builtins add nothing to the documentation.
    fn document(&self, meta: &M) -> (r: String)
        ensures
            r@ == Seq::<char>::empty(),
    {
        String::new()
    }
}

/// Every builtin that reads a path accepts `Text` paths: with `Text`
/// paths (and `Bool` switches) the checks of `cd`, `cp`, `mv`, `rm`,
/// `touch`, `lock`, `ls` and `lines` all pass.
pub proof fn law_text_paths_accepted()
    ensures
        cd_check(Type::Text) is Ok,
        cp_check(Type::Text, Type::Text, Some(Type::Bool)) is Ok,
        cp_check(Type::Text, Type::Text, None) is Ok,
        mv_check(Type::Text, Type::Text) is Ok,
        rm_check(Type::Text, Some(Type::Bool), Some(Type::Bool)) is Ok,
        touch_check(Type::Text) is Ok,
        lock_check(Some(Type::Text)) is Ok,
        lock_check(None) is Ok,
        ls_check(Some(Type::Text), Some(Type::Bool), Some(Type::Bool)) is Ok,
        ls_check(None, None, None) is Ok,
        lines_check(Type::Text) is Ok,
{
}

/// A check fails exactly with a mismatch that names the given type: for
/// every non-`Text` path the comment of `cd`'s error ends with `Text` and
/// holds the given type's name.
pub proof fn law_cd_rejects_non_text(t: Type)
    requires
        !(t is Text),
    ensures
        cd_check(t) == Err::<(), TypeErrorView>(mismatch("Builtin function `cd` can only be used with values of type Text"@, t, "Text"@)),
{
}

} // verus!
