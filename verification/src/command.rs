use vstd::prelude::*;
use crate::compiler::{trim_end_text, trimmed_end};
use crate::text::{chars_of, owned, push_str, string_of, usize_to_text, decimal};

verus! {

/// Whether `t` starts with the command substitution opener `$(`.
pub open spec fn opens_substitution(t: Seq<char>) -> bool {
    t.len() >= 2 && t[0] == '$' && t[1] == '('
}

/// Whether stripping the outer `$( ... )` layers of `t` works: each layer
/// holds at least one more character, the last being ASCII (the last byte
/// is dropped).
pub open spec fn strippable(t: Seq<char>) -> bool
    decreases t.len(),
{
    if opens_substitution(t) {
        t.len() >= 3 && (t.last() as u32) < 0x80 && strippable(t.subrange(2, t.len() - 1))
    } else {
        true
    }
}

/// `t` without its outer `$( ... )` layers: `$(` and the last character are
/// dropped while `t` starts with `$(`.
pub open spec fn stripped(t: Seq<char>) -> Seq<char>
    decreases t.len(),
{
    if opens_substitution(t) && t.len() >= 3 {
        stripped(t.subrange(2, t.len() - 1))
    } else {
        t
    }
}

/// A command statement's code: its translation with the substitution layers
/// stripped, the silencing suffix, a new line and the failure handler's
/// code, without trailing white space.
pub open spec fn statement_code(translation: Seq<char>, silent: Seq<char>, failed: Seq<char>) -> Seq<char> {
    trimmed_end(stripped(translation) + silent + seq!['\n'] + failed)
}

/// A `$...$` command used as a statement.
pub struct CommandStatement {
    pub strings: Vec<String>,
}

/// `v` without its outer `$( ... )` layers.
fn strip_substitutions(v: &Vec<char>) -> (r: Vec<char>)
    requires
        strippable(v@),
    ensures
        r@ == stripped(v@),
{
    let mut lo: usize = 0;
    let mut hi: usize = v.len();
    assert(v@.subrange(0, v@.len() as int) =~= v@);
    while hi - lo >= 2 && v[lo] == '$' && v[lo + 1] == '('
        invariant
            lo <= hi <= v@.len(),
            strippable(v@.subrange(lo as int, hi as int)),
            stripped(v@.subrange(lo as int, hi as int)) == stripped(v@),
        decreases hi - lo,
    {
        let ghost t = v@.subrange(lo as int, hi as int);
        assert(t[0] == v@[lo as int] && t[1] == v@[lo + 1]);
        assert(opens_substitution(t));
        assert(t.subrange(2, t.len() - 1) =~= v@.subrange(lo + 2, hi - 1));
        lo = lo + 2;
        hi = hi - 1;
    }
    let ghost rest = v@.subrange(lo as int, hi as int);
    assert(!opens_substitution(rest)) by {
        if rest.len() >= 2 {
            assert(rest[0] == v@[lo as int] && rest[1] == v@[lo + 1]);
        }
    }
    let mut out: Vec<char> = Vec::new();
    let mut i = lo;
    while i < hi
        invariant
            lo <= i <= hi <= v@.len(),
            out@ == v@.subrange(lo as int, i as int),
        decreases hi - i,
    {
        out.push(v[i]);
        i = i + 1;
        assert(out@ =~= v@.subrange(lo as int, i as int));
    }
    out
}

/// Whether the outer `$( ... )` layers of `translation` can be stripped
/// (see [`strippable`]).
pub fn can_strip(translation: &str) -> (r: bool)
    ensures
        r == strippable(translation@),
{
    let v = chars_of(translation);
    let mut lo: usize = 0;
    let mut hi: usize = v.len();
    assert(v@.subrange(0, v@.len() as int) =~= v@);
    while hi - lo >= 2 && v[lo] == '$' && v[lo + 1] == '('
        invariant
            v@ == translation@,
            lo <= hi <= v@.len(),
            strippable(v@.subrange(lo as int, hi as int)) == strippable(v@),
        decreases hi - lo,
    {
        let ghost t = v@.subrange(lo as int, hi as int);
        assert(t[0] == v@[lo as int] && t[1] == v@[lo + 1]);
        assert(opens_substitution(t));
        if hi - lo < 3 || (v[hi - 1] as u32) >= 0x80 {
            assert(t.last() == v@[hi - 1]);
            return false;
        }
        assert(t.last() == v@[hi - 1]);
        assert(t.subrange(2, t.len() - 1) =~= v@.subrange(lo + 2, hi - 1));
        lo = lo + 2;
        hi = hi - 1;
    }
    let ghost rest = v@.subrange(lo as int, hi as int);
    assert(!opens_substitution(rest)) by {
        if rest.len() >= 2 {
            assert(rest[0] == v@[lo as int] && rest[1] == v@[lo + 1]);
        }
    }
    true
}

impl CommandStatement {
    /// The statement's code, from the translation of its interpolated text,
    /// the silencing suffix and the translated failure handler.
    pub fn translate_parts(translation: &str, silent: &str, failed: &str) -> (r: String)
        requires
            strippable(translation@),
        ensures
            r@ == statement_code(translation@, silent@, failed@),
    {
        let v = chars_of(translation);
        let out = strip_substitutions(&v);
        let mut code = string_of(out.as_slice());
        push_str(&mut code, silent);
        push_str(&mut code, "\n");
        push_str(&mut code, failed);
        proof {
            reveal_strlit("\n");
        }
        assert(code@ =~= stripped(translation@) + silent@ + seq!['\n'] + failed@);
        trim_end_text(code.as_str())
    }
}

/// The code of a command: what it adds to the statement queue (in order),
/// and the text that stands in its place.
#[derive(Debug, PartialEq, Eq)]
pub struct CommandCode {
    pub queued: Vec<String>,
    pub value: String,
    /// Whether `value` still has to be run in a subshell to give its output.
    pub subprocess: bool,
}

pub struct CommandCodeView {
    pub queued: Seq<Seq<char>>,
    pub value: Seq<char>,
    pub subprocess: bool,
}

impl View for CommandCode {
    type V = CommandCodeView;

    open spec fn view(&self) -> CommandCodeView {
        CommandCodeView {
            queued: self.queued@.map_values(|s: String| s@),
            value: self.value@,
            subprocess: self.subprocess,
        }
    }
}

/// The variable that keeps a handled command's output.
pub open spec fn value_var(id: nat) -> Seq<char> {
    "__AMBER_VAL_"@ + decimal(id)
}

/// How a command (with `code`: its translation and silencing suffix) is
/// placed: as a statement it runs before its failure handler; as a value its
/// output is captured, into a variable first when a handler must run.
pub open spec fn command_code(
    code: Seq<char>,
    failed: Seq<char>,
    is_statement: bool,
    id: nat,
    quote: Seq<char>,
    dollar: Seq<char>,
) -> CommandCodeView {
    if is_statement {
        if failed.len() == 0 {
            CommandCodeView { queued: Seq::empty(), value: code, subprocess: false }
        } else {
            CommandCodeView { queued: seq![code], value: failed, subprocess: false }
        }
    } else if failed.len() == 0 {
        CommandCodeView { queued: Seq::empty(), value: code, subprocess: true }
    } else {
        CommandCodeView {
            queued: seq![value_var(id) + "=$("@ + code + ")"@, failed],
            value: quote + dollar + "{"@ + value_var(id) + "}"@ + quote,
            subprocess: false,
        }
    }
}

/// A `$...$` command.
pub struct Command {
    pub strings: Vec<String>,
}

impl Command {
    /// The code of the command, from its translation and silencing suffix
    /// (`code`), its translated failure handler, the id of a fresh value,
    /// and the quote and dollar of the current context.
    pub fn translate_command(
        &self,
        code: &str,
        failed: &str,
        is_statement: bool,
        id: usize,
        quote: &str,
        dollar: &str,
    ) -> (r: CommandCode)
        ensures
            r@ == command_code(code@, failed@, is_statement, id as nat, quote@, dollar@),
    {
        let failed_empty = failed.unicode_len() == 0;
        if is_statement {
            if failed_empty {
                let r = CommandCode { queued: Vec::new(), value: owned(code), subprocess: false };
                assert(r@.queued =~= Seq::<Seq<char>>::empty());
                r
            } else {
                let mut queued: Vec<String> = Vec::new();
                queued.push(owned(code));
                let r = CommandCode { queued, value: owned(failed), subprocess: false };
                assert(r@.queued =~= seq![code@]);
                r
            }
        } else if failed_empty {
            let r = CommandCode { queued: Vec::new(), value: owned(code), subprocess: true };
            assert(r@.queued =~= Seq::<Seq<char>>::empty());
            r
        } else {
            let mut var = owned("__AMBER_VAL_");
            let n = usize_to_text(id);
            push_str(&mut var, n.as_str());
            let mut capture = owned(var.as_str());
            push_str(&mut capture, "=$(");
            push_str(&mut capture, code);
            push_str(&mut capture, ")");
            let mut value = owned(quote);
            push_str(&mut value, dollar);
            push_str(&mut value, "{");
            push_str(&mut value, var.as_str());
            push_str(&mut value, "}");
            push_str(&mut value, quote);
            let mut queued: Vec<String> = Vec::new();
            queued.push(capture);
            queued.push(owned(failed));
            let r = CommandCode { queued, value, subprocess: false };
            assert(r@.queued =~= seq![value_var(id as nat) + "=$("@ + code@ + ")"@, failed@]);
            r
        }
    }

    /// The command used as a statement.
    pub fn translate_command_statement(&self, code: &str, failed: &str) -> (r: CommandCode)
        ensures
            r@ == command_code(code@, failed@, true, 0, Seq::empty(), Seq::empty()),
    {
        self.translate_command(code, failed, true, 0, "", "")
    }
}

/// The suffix that silences a command used as a value.
pub open spec fn expr_silencer(is_silent: bool) -> Seq<char> {
    if is_silent {
        " 2>/dev/null"@
    } else {
        Seq::empty()
    }
}

/// A `$...$` command used as a value (older form).
pub struct CommandExpr {
    /// Whether the `silent` modifier applies to it.
    pub is_silent_expr: bool,
}

impl CommandExpr {
    /// The code of the command, from the translation of its text, its
    /// translated failure handler, the id of a fresh value, and the quote
    /// and dollar of the current context: its output is captured, into a
    /// variable first when a handler must run.
    pub fn translate_parts(&self, translation: &str, failed: &str, id: usize, quote: &str, dollar: &str) -> (r: CommandCode)
        ensures
            r@ == command_code(translation@ + expr_silencer(self.is_silent_expr), failed@, false, id as nat, quote@, dollar@),
    {
        let mut code = owned(translation);
        if self.is_silent_expr {
            push_str(&mut code, " 2>/dev/null");
        } else {
            assert(code@ =~= translation@ + expr_silencer(false));
        }
        let c = Command { strings: Vec::new() };
        c.translate_command(code.as_str(), failed, false, id, quote, dollar)
    }
}

/// Where a command's code goes, by whether the command is a statement and
/// whether a failure handler follows it.
#[derive(Debug, Clone, Copy, PartialEq, Eq, Structural)]
pub enum CommandPlacement {
    /// A statement with a handler: the command is queued and the handler
    /// stands in its place.
    QueueThenHandler,
    /// A statement without a handler: the command stands as it is.
    Inline,
    /// A value without a handler: the command runs in a subshell.
    Subprocess,
    /// A value with a handler: the subshell's output goes into a fresh
    /// variable, the handler is queued, and the variable stands in place.
    CaptureThenHandler,
}

impl Command {
    /// Where the code of a command goes.
    pub fn placement(is_statement: bool, has_failure_handler: bool) -> (r: CommandPlacement)
        ensures
            r == (if is_statement {
                if has_failure_handler {
                    CommandPlacement::QueueThenHandler
                } else {
                    CommandPlacement::Inline
                }
            } else if has_failure_handler {
                CommandPlacement::CaptureThenHandler
            } else {
                CommandPlacement::Subprocess
            }),
    {
        match (is_statement, has_failure_handler) {
            (true, true) => CommandPlacement::QueueThenHandler,
            (true, false) => CommandPlacement::Inline,
            (false, false) => CommandPlacement::Subprocess,
            (false, true) => CommandPlacement::CaptureThenHandler,
        }
    }
}

/// The error for a command that both trusts its failures and propagates
/// them with `?`.
pub open spec fn trusted_question_mark_error() -> Seq<char> {
    "The '?' operator cannot be used with the 'trust' modifier because 'trust' ignores failure while '?' propagates it"@
}

impl Command {
    /// A command may not combine the `trust` modifier with the `?`
    /// operator.
    pub fn check_question_mark(is_trust: bool, is_question_mark: bool) -> (r: Result<(), String>)
        ensures
            match r {
                Ok(()) => !(is_trust && is_question_mark),
                Err(e) => is_trust && is_question_mark && e@ == trusted_question_mark_error(),
            },
    {
        if is_trust && is_question_mark {
            Err(owned(
                "The '?' operator cannot be used with the 'trust' modifier because 'trust' ignores failure while '?' propagates it",
            ))
        } else {
            Ok(())
        }
    }
}

/// Stripping removes every layer: stripping again changes nothing.
pub proof fn law_stripping_is_complete(t: Seq<char>)
    ensures
        stripped(stripped(t)) == stripped(t),
    decreases t.len(),
{
    if opens_substitution(t) && t.len() >= 3 {
        law_stripping_is_complete(t.subrange(2, t.len() - 1));
    }
}

/// `trimmed_end` leaves no trailing white space.
proof fn lemma_trimmed_end_clean(t: Seq<char>)
    ensures
        trimmed_end(t).len() == 0 || !crate::compiler::is_white_space(trimmed_end(t).last()),
    decreases t.len(),
{
    if t.len() > 0 && crate::compiler::is_white_space(t.last()) {
        lemma_trimmed_end_clean(t.drop_last());
    }
}

/// A command statement's code never ends in white space (its last line is
/// the failure handler's code, or the command when there is none).
pub proof fn law_statement_code_ends_clean(translation: Seq<char>, silent: Seq<char>, failed: Seq<char>)
    ensures
        ({
            let c = statement_code(translation, silent, failed);
            c.len() == 0 || !crate::compiler::is_white_space(c.last())
        }),
{
    lemma_trimmed_end_clean(stripped(translation) + silent + seq!['\n'] + failed);
}

} // verus!
