use vstd::prelude::*;
use crate::text::{append_lines, push_line, texts};

verus! {

/// Which outcome of a command a failure handler reacts to.
#[derive(Debug, Clone, Copy, PartialEq, Eq, Structural)]
pub enum FailureType {
    Failed,
    Succeeded,
    Exited,
}

impl FailureType {
    /// The keyword that introduces the handler.
    pub fn to_string(&self) -> (r: &'static str)
        ensures
            r@ == (match *self {
                FailureType::Failed => "failed"@,
                FailureType::Succeeded => "succeeded"@,
                FailureType::Exited => "exited"@,
            }),
    {
        match self {
            FailureType::Failed => "failed",
            FailureType::Succeeded => "succeeded",
            FailureType::Exited => "exited",
        }
    }
}

/// The shape of the shell code that handles a command's exit status.  The
/// status is always saved first (`__status=$?`), since testing `$?` clears
/// it.
#[derive(Debug, Clone, Copy, PartialEq, Eq, Structural)]
pub enum HandlerPlan {
    /// No handler was parsed: nothing is emitted.
    Nothing,
    /// Only the status is saved (the handler's block is empty).
    StatusOnly,
    /// `?`: on a non-zero status leave with it, by `exit` in the main block
    /// or by `return` in a function (after resetting the function's return
    /// value).
    Propagate { by_exit: bool, reset_return: bool },
    /// Run the block when the status is non-zero (`on_failure`) or zero,
    /// binding the status to the handler's parameter first if it has one.
    RunIf { on_failure: bool, bind_param: bool },
    /// Run the block whatever the status, binding it to the parameter first
    /// if there is one.
    RunAlways { bind_param: bool },
}

/// A parsed `?`, `failed`, `succeeded` or `exited` handler.
pub struct FailureHandler {
    pub is_parsed: bool,
    pub failure_type: FailureType,
    pub is_question_mark: bool,
    /// Whether the handler stands in the main block (not in a function).
    pub is_main: bool,
    /// The name given in `failed(name)` or `exited(name)`, empty if none.
    pub param_name: String,
    pub function_name: Option<String>,
    pub error_position: Option<usize>,
}

/// The plan for a handler, given whether its translated block is empty.
pub open spec fn handler_plan(
    is_parsed: bool,
    failure_type: FailureType,
    is_question_mark: bool,
    is_main: bool,
    has_param: bool,
    block_empty: bool,
) -> HandlerPlan {
    if !is_parsed {
        HandlerPlan::Nothing
    } else if is_question_mark {
        HandlerPlan::Propagate { by_exit: is_main, reset_return: !is_main }
    } else if block_empty {
        HandlerPlan::StatusOnly
    } else {
        match failure_type {
            FailureType::Failed => HandlerPlan::RunIf { on_failure: true, bind_param: has_param },
            FailureType::Succeeded => HandlerPlan::RunIf { on_failure: false, bind_param: false },
            FailureType::Exited => HandlerPlan::RunAlways { bind_param: has_param },
        }
    }
}

impl FailureHandler {
    pub fn new() -> (r: Self)
        ensures
            !r.is_parsed,
            r.failure_type == FailureType::Failed,
            !r.is_question_mark,
            !r.is_main,
            r.param_name@ == Seq::<char>::empty(),
            r.function_name is None,
            r.error_position is None,
    {
        FailureHandler {
            is_parsed: false,
            failure_type: FailureType::Failed,
            is_question_mark: false,
            is_main: false,
            param_name: String::new(),
            function_name: None,
            error_position: None,
        }
    }

    /// Records where the handled command stands (its first token's index).
    pub fn set_position(&mut self, position: usize)
        ensures
            final(self).error_position == Some(position),
            final(self).is_parsed == old(self).is_parsed,
            final(self).failure_type == old(self).failure_type,
            final(self).is_question_mark == old(self).is_question_mark,
            final(self).is_main == old(self).is_main,
            final(self).param_name == old(self).param_name,
            final(self).function_name == old(self).function_name,
    {
        self.error_position = Some(position);
    }

    pub fn set_function_name(&mut self, name: String)
        ensures
            final(self).function_name == Some(name),
            final(self).error_position == old(self).error_position,
            final(self).is_parsed == old(self).is_parsed,
            final(self).failure_type == old(self).failure_type,
            final(self).is_question_mark == old(self).is_question_mark,
            final(self).is_main == old(self).is_main,
            final(self).param_name == old(self).param_name,
    {
        self.function_name = Some(name);
    }

    /// The shape of the status handling code, given whether the handler's
    /// translated block is empty.
    pub fn translate_plan(&self, block_empty: bool) -> (r: HandlerPlan)
        ensures
            r == handler_plan(
                self.is_parsed,
                self.failure_type,
                self.is_question_mark,
                self.is_main,
                self.param_name@.len() > 0,
                block_empty,
            ),
    {
        if !self.is_parsed {
            return HandlerPlan::Nothing;
        }
        if self.is_question_mark {
            return HandlerPlan::Propagate { by_exit: self.is_main, reset_return: !self.is_main };
        }
        if block_empty {
            return HandlerPlan::StatusOnly;
        }
        let has_param = self.param_name.as_str().unicode_len() > 0;
        match self.failure_type {
            FailureType::Failed => HandlerPlan::RunIf { on_failure: true, bind_param: has_param },
            FailureType::Succeeded => HandlerPlan::RunIf { on_failure: false, bind_param: false },
            FailureType::Exited => HandlerPlan::RunAlways { bind_param: has_param },
        }
    }
}

/// The test on the saved status that guards a handler's block: non-zero
/// for `failed` and `?`, zero for `succeeded`.
pub open spec fn status_guard(on_failure: bool) -> Seq<char> {
    if on_failure {
        "if [ $__status != 0 ]; then"@
    } else {
        "if [ $__status = 0 ]; then"@
    }
}

/// The line that assigns the saved status to the handler's parameter,
/// whose variable is `param_var`.
pub open spec fn status_binding(param_var: Seq<char>) -> Seq<char> {
    param_var + "=$__status"@
}

/// The shell lines of a handler that follows `plan`: `block` is the
/// translation of the handler's block, `indent` one level of indentation,
/// and `fun_return` the return variable of the enclosing function with its
/// default value (reset before `?` returns from a function).
pub open spec fn handler_code(
    plan: HandlerPlan,
    block: Seq<Seq<char>>,
    indent: Seq<char>,
    fun_return: Option<(Seq<char>, Seq<char>)>,
    param_var: Seq<char>,
) -> Seq<Seq<char>> {
    let save = seq!["__status=$?"@];
    match plan {
        HandlerPlan::Nothing => Seq::empty(),
        HandlerPlan::StatusOnly => save,
        HandlerPlan::Propagate { by_exit, reset_return } => save + seq![status_guard(true)] + (if reset_return {
            match fun_return {
                Some((name, default)) => seq![indent + name + "="@ + default],
                None => Seq::empty(),
            }
        } else {
            Seq::empty()
        }) + seq![indent + (if by_exit { "exit $__status"@ } else { "return $__status"@ })] + seq!["fi"@],
        HandlerPlan::RunIf { on_failure, bind_param } => save + seq![status_guard(on_failure)] + (if bind_param {
            seq![status_binding(param_var)]
        } else {
            Seq::empty()
        }) + block + seq!["fi"@],
        HandlerPlan::RunAlways { bind_param } => save + (if bind_param {
            seq![status_binding(param_var)]
        } else {
            Seq::empty()
        }) + block,
    }
}

pub open spec fn pair_view(p: Option<(&str, &str)>) -> Option<(Seq<char>, Seq<char>)> {
    match p {
        Some((a, b)) => Some((a@, b@)),
        None => None,
    }
}

impl FailureHandler {
    /// The shell lines that handle the exit status of the command before
    /// it.  `block` is the translation of the handler's block (no lines
    /// when it is empty), `indent` one level of indentation, `fun_return`
    /// the enclosing function's return variable and its default value
    /// (needed by `?` outside the main block), and `param_var` the variable
    /// of the handler's parameter.
    pub fn translate(&self, block: &Vec<String>, indent: &str, fun_return: Option<(&str, &str)>, param_var: &str) -> (r: Vec<String>)
        requires
            self.is_parsed && self.is_question_mark && !self.is_main ==> fun_return is Some,
        ensures
            texts(r@) == handler_code(
                handler_plan(
                    self.is_parsed,
                    self.failure_type,
                    self.is_question_mark,
                    self.is_main,
                    self.param_name@.len() > 0,
                    block@.len() == 0,
                ),
                texts(block@),
                indent@,
                pair_view(fun_return),
                param_var@,
            ),
    {
        let plan = self.translate_plan(block.len() == 0);
        emit_handler(plan, block, indent, fun_return, param_var)
    }
}

/// The lines of [`handler_code`] for `plan`.
fn emit_handler(plan: HandlerPlan, block: &Vec<String>, indent: &str, fun_return: Option<(&str, &str)>, param_var: &str) -> (r: Vec<String>)
    requires
        plan matches HandlerPlan::Propagate { reset_return, .. } && reset_return ==> fun_return is Some,
    ensures
        texts(r@) == handler_code(plan, texts(block@), indent@, pair_view(fun_return), param_var@),
{
    let mut r: Vec<String> = Vec::new();
    match plan {
        HandlerPlan::Nothing => {},
        HandlerPlan::StatusOnly => {
            push_line(&mut r, "__status=$?", "");
        },
        HandlerPlan::Propagate { by_exit, reset_return } => {
            push_line(&mut r, "__status=$?", "");
            push_line(&mut r, "if [ $__status != 0 ]; then", "");
            if reset_return {
                match fun_return {
                    Some((name, default)) => {
                        let mut l = crate::text::owned(indent);
                        crate::text::push_str(&mut l, name);
                        crate::text::push_str(&mut l, "=");
                        push_line(&mut r, l.as_str(), default);
                    },
                    None => {},
                }
            }
            if by_exit {
                push_line(&mut r, indent, "exit $__status");
            } else {
                push_line(&mut r, indent, "return $__status");
            }
            push_line(&mut r, "fi", "");
        },
        HandlerPlan::RunIf { on_failure, bind_param } => {
            push_line(&mut r, "__status=$?", "");
            if on_failure {
                push_line(&mut r, "if [ $__status != 0 ]; then", "");
            } else {
                push_line(&mut r, "if [ $__status = 0 ]; then", "");
            }
            if bind_param {
                push_line(&mut r, param_var, "=$__status");
            }
            append_lines(&mut r, block);
            push_line(&mut r, "fi", "");
        },
        HandlerPlan::RunAlways { bind_param } => {
            push_line(&mut r, "__status=$?", "");
            if bind_param {
                push_line(&mut r, param_var, "=$__status");
            }
            append_lines(&mut r, block);
        },
    }
    proof {
        reveal_strlit("");
    }
    assert(texts(r@) =~= handler_code(plan, texts(block@), indent@, pair_view(fun_return), param_var@));
    r
}

/// Every parsed handler first saves the status (testing `$?` would clear
/// it), and a handler that tests the status closes its test with `fi`.
pub proof fn law_handler_saves_status_first(
    plan: HandlerPlan,
    block: Seq<Seq<char>>,
    indent: Seq<char>,
    fun_return: Option<(Seq<char>, Seq<char>)>,
    param_var: Seq<char>,
)
    ensures
        ({
            let code = handler_code(plan, block, indent, fun_return, param_var);
            &&& plan is Nothing <==> code.len() == 0
            &&& !(plan is Nothing) ==> code[0] == "__status=$?"@
            &&& (plan is RunIf || plan is Propagate) ==> code.len() >= 3 && code[1] == status_guard(
                !(plan matches HandlerPlan::RunIf { on_failure, .. } && !on_failure),
            ) && code.last() == "fi"@
        }),
{
}

/// Whether a plan runs the handler's block for the exit status `status`.
pub open spec fn runs_block(plan: HandlerPlan, status: int) -> bool {
    match plan {
        HandlerPlan::RunIf { on_failure, .. } => if on_failure {
            status != 0
        } else {
            status == 0
        },
        HandlerPlan::RunAlways { .. } => true,
        _ => false,
    }
}

/// With a non-empty block, `failed` runs it exactly on a non-zero status,
/// `succeeded` exactly on status zero, and `exited` on every status.
pub proof fn law_handlers_react_to_status(is_main: bool, has_param: bool, status: int)
    ensures
        runs_block(handler_plan(true, FailureType::Failed, false, is_main, has_param, false), status)
            == (status != 0),
        runs_block(handler_plan(true, FailureType::Succeeded, false, is_main, has_param, false), status)
            == (status == 0),
        runs_block(handler_plan(true, FailureType::Exited, false, is_main, has_param, false), status),
{
}

/// `?` propagates with `exit` exactly in the main block, and with `return`
/// (after resetting the return value) inside functions, whatever the
/// handler's block holds.
pub proof fn law_question_mark_propagates(failure_type: FailureType, is_main: bool, has_param: bool, block_empty: bool)
    ensures
        handler_plan(true, failure_type, true, is_main, has_param, block_empty) == (HandlerPlan::Propagate {
            by_exit: is_main,
            reset_return: !is_main,
        }),
{
}

/// What is known of a condition before running it.
#[derive(Debug, Clone, Copy, PartialEq, Eq, Structural)]
pub struct BoolAnalysis {
    /// The condition's value, when it is known at compile time.
    pub known_value: Option<bool>,
    pub has_side_effects: bool,
    /// Whether the value depends on the target shell.
    pub depends_on_target: bool,
}

/// One `condition { block }` of an if chain.
#[derive(Debug, Clone, Copy, PartialEq, Eq, Structural)]
pub struct IfChainBranch {
    pub cfa: BoolAnalysis,
    /// Whether the branch's block always ends control flow (returns, exits,
    /// ...).
    pub terminates: bool,
}

impl IfChainBranch {
    pub fn new(terminates: bool) -> (r: Self)
        ensures
            r.terminates == terminates,
            r.cfa == (BoolAnalysis { known_value: None, has_side_effects: false, depends_on_target: false }),
    {
        IfChainBranch {
            cfa: BoolAnalysis { known_value: None, has_side_effects: false, depends_on_target: false },
            terminates,
        }
    }

    pub fn with_cfa(self, cfa: BoolAnalysis) -> (r: Self)
        ensures
            r.cfa == cfa,
            r.terminates == self.terminates,
    {
        IfChainBranch { cfa, terminates: self.terminates }
    }
}

/// An if chain: conditional branches and an optional `else` branch.
pub struct IfChain {
    pub cond_blocks: Vec<IfChainBranch>,
    pub false_block: Option<IfChainBranch>,
}

/// Whether every path through the chain ends control flow.  Branches after
/// the first one known to be true are never reached; without such a branch
/// the `else` branch must exist and terminate too.
pub open spec fn chain_terminates(branches: Seq<IfChainBranch>, else_branch: Option<IfChainBranch>) -> bool
    decreases branches.len(),
{
    if branches.len() == 0 {
        match else_branch {
            Some(b) => b.terminates,
            None => false,
        }
    } else if branches[0].cfa.known_value == Some(true) {
        branches[0].terminates
    } else {
        branches[0].terminates && chain_terminates(branches.drop_first(), else_branch)
    }
}

/// Why a piece of an if chain is never run.
#[derive(Debug, Clone, Copy, PartialEq, Eq, Structural)]
pub enum DeadCode {
    /// "Condition is unreachable, previous condition is always true"
    Unreachable,
    /// "Condition is always false, block will never execute"
    AlwaysFalse,
    /// "Condition is always true, 'else' block will never execute"
    ElseUnreachable,
}

/// The text of a dead code warning.
pub open spec fn dead_code_text(kind: DeadCode) -> Seq<char> {
    match kind {
        DeadCode::Unreachable => "Condition is unreachable, previous condition is always true"@,
        DeadCode::AlwaysFalse => "Condition is always false, block will never execute"@,
        DeadCode::ElseUnreachable => "Condition is always true, 'else' block will never execute"@,
    }
}

/// The comment of a warning that the compiler flag `flag_name` suppresses.
pub open spec fn suppression_hint(flag_name: Seq<char>) -> Seq<char> {
    "To suppress this warning, use '"@ + flag_name + "' compiler flag"@
}

impl DeadCode {
    /// The warning's text.
    pub fn message(&self) -> (r: &'static str)
        ensures
            r@ == dead_code_text(*self),
    {
        match self {
            DeadCode::Unreachable => "Condition is unreachable, previous condition is always true",
            DeadCode::AlwaysFalse => "Condition is always false, block will never execute",
            DeadCode::ElseUnreachable => "Condition is always true, 'else' block will never execute",
        }
    }

    /// The warning's comment: how the compiler flag `flag_name` suppresses
    /// it.
    pub fn hint(flag_name: &str) -> (r: String)
        ensures
            r@ == suppression_hint(flag_name@),
    {
        let mut r = crate::text::owned("To suppress this warning, use '");
        crate::text::push_str(&mut r, flag_name);
        crate::text::push_str(&mut r, "' compiler flag");
        r
    }
}

/// A warning about the branch at `index`.
#[derive(Debug, Clone, Copy, PartialEq, Eq, Structural)]
pub struct DeadCodeWarning {
    pub index: usize,
    pub kind: DeadCode,
}

/// The state of pruning after a prefix of the branches.
pub struct PruneState {
    pub kept: Seq<IfChainBranch>,
    pub warnings: Seq<DeadCodeWarning>,
    /// The index and target dependence of the first branch known true and
    /// free of side effects.
    pub first_true: Option<(usize, bool)>,
}

pub open spec fn prune_step(st: PruneState, b: IfChainBranch, index: usize, allow_dead_code: bool) -> PruneState {
    match st.first_true {
        Some((_, dep)) => if !dep && !allow_dead_code {
            PruneState { warnings: st.warnings.push(DeadCodeWarning { index, kind: DeadCode::Unreachable }), ..st }
        } else {
            st
        },
        None => if b.cfa.known_value == Some(true) && !b.cfa.has_side_effects {
            PruneState { kept: st.kept.push(b), first_true: Some((index, b.cfa.depends_on_target)), ..st }
        } else if b.cfa.known_value == Some(false) && !b.cfa.has_side_effects {
            if !b.cfa.depends_on_target && !allow_dead_code {
                PruneState { warnings: st.warnings.push(DeadCodeWarning { index, kind: DeadCode::AlwaysFalse }), ..st }
            } else {
                st
            }
        } else {
            PruneState { kept: st.kept.push(b), ..st }
        },
    }
}

pub open spec fn prune_run(bs: Seq<IfChainBranch>, allow_dead_code: bool) -> PruneState
    decreases bs.len(),
{
    if bs.len() == 0 {
        PruneState { kept: Seq::empty(), warnings: Seq::empty(), first_true: None }
    } else {
        prune_step(prune_run(bs.drop_last(), allow_dead_code), bs.last(), (bs.len() - 1) as usize, allow_dead_code)
    }
}

/// The warnings of pruning, including the one for an `else` branch that a
/// branch known to be true hides.
pub open spec fn prune_warnings(bs: Seq<IfChainBranch>, has_else: bool, allow_dead_code: bool) -> Seq<DeadCodeWarning> {
    let st = prune_run(bs, allow_dead_code);
    match st.first_true {
        Some((i, dep)) => if has_else && !dep && !allow_dead_code {
            st.warnings.push(DeadCodeWarning { index: i, kind: DeadCode::ElseUnreachable })
        } else {
            st.warnings
        },
        None => st.warnings,
    }
}

/// What the chain looks like in the generated code.
#[derive(Debug, Clone, Copy, PartialEq, Eq, Structural)]
pub enum ChainShape {
    /// No branch is left: nothing, or the `else` block alone.
    ElseOnly { has_else: bool },
    /// The first branch is known true: its block alone, without a test.
    FirstBlockOnly,
    /// `if ... elif ... [else] ... fi` over the remaining branches.
    Full { has_else: bool },
}

impl IfChain {
    /// Whether every path through the chain ends control flow.
    pub fn terminates_control_flow(&self) -> (r: bool)
        ensures
            r == chain_terminates(self.cond_blocks@, self.false_block),
    {
        let mut all_previously_terminated = true;
        let mut i: usize = 0;
        assert(self.cond_blocks@.skip(0) =~= self.cond_blocks@);
        while i < self.cond_blocks.len()
            invariant
                i <= self.cond_blocks@.len(),
                forall|k: int| 0 <= k < i ==> self.cond_blocks@[k].cfa.known_value != Some(true),
                all_previously_terminated == (forall|k: int| 0 <= k < i ==> #[trigger] self.cond_blocks@[k].terminates),
                chain_terminates(self.cond_blocks@, self.false_block) == (all_previously_terminated
                    && chain_terminates(self.cond_blocks@.skip(i as int), self.false_block)),
            decreases self.cond_blocks@.len() - i,
        {
            let branch = &self.cond_blocks[i];
            proof {
                let rest = self.cond_blocks@.skip(i as int);
                assert(rest[0] == *branch);
                assert(rest.drop_first() =~= self.cond_blocks@.skip(i + 1));
            }
            if branch.cfa.known_value == Some(true) {
                return all_previously_terminated && branch.terminates;
            }
            all_previously_terminated = all_previously_terminated && branch.terminates;
            i = i + 1;
        }
        match &self.false_block {
            Some(branch) => if all_previously_terminated {
                branch.terminates
            } else {
                false
            },
            None => false,
        }
    }

    /// Drops the branches that can never run and returns the dead code
    /// warnings (none when dead code is allowed).  After a branch known to
    /// be true (and free of side effects) nothing else is kept, the `else`
    /// branch included.
    pub fn typecheck(&mut self, allow_dead_code: bool) -> (r: Vec<DeadCodeWarning>)
        ensures
            final(self).cond_blocks@ == prune_run(old(self).cond_blocks@, allow_dead_code).kept,
            r@ == prune_warnings(old(self).cond_blocks@, old(self).false_block is Some, allow_dead_code),
            final(self).false_block == (if prune_run(old(self).cond_blocks@, allow_dead_code).first_true is Some {
                None
            } else {
                old(self).false_block
            }),
    {
        let ghost bs = self.cond_blocks@;
        let mut old_chain: Vec<IfChainBranch> = Vec::new();
        std::mem::swap(&mut old_chain, &mut self.cond_blocks);
        let mut new_chain: Vec<IfChainBranch> = Vec::new();
        let mut warnings: Vec<DeadCodeWarning> = Vec::new();
        let mut first_true: Option<(usize, bool)> = None;
        let mut i: usize = 0;
        while i < old_chain.len()
            invariant
                i <= old_chain@.len(),
                old_chain@ == bs,
                ({
                    let st = prune_run(bs.take(i as int), allow_dead_code);
                    &&& new_chain@ == st.kept
                    &&& warnings@ == st.warnings
                    &&& first_true == st.first_true
                }),
            decreases old_chain@.len() - i,
        {
            let b = old_chain[i];
            proof {
                assert(bs.take(i + 1).drop_last() =~= bs.take(i as int));
                assert(bs.take(i + 1).last() == b);
            }
            match first_true {
                Some((_, dep)) => {
                    if !dep && !allow_dead_code {
                        warnings.push(DeadCodeWarning { index: i, kind: DeadCode::Unreachable });
                    }
                },
                None => {
                    if b.cfa.known_value == Some(true) && !b.cfa.has_side_effects {
                        new_chain.push(b);
                        first_true = Some((i, b.cfa.depends_on_target));
                    } else if b.cfa.known_value == Some(false) && !b.cfa.has_side_effects {
                        if !b.cfa.depends_on_target && !allow_dead_code {
                            warnings.push(DeadCodeWarning { index: i, kind: DeadCode::AlwaysFalse });
                        }
                    } else {
                        new_chain.push(b);
                    }
                },
            }
            i = i + 1;
        }
        proof {
            assert(bs.take(bs.len() as int) =~= bs);
        }
        self.cond_blocks = new_chain;
        if let Some((index, dep)) = first_true {
            if self.false_block.is_some() && !dep && !allow_dead_code {
                warnings.push(DeadCodeWarning { index, kind: DeadCode::ElseUnreachable });
            }
            self.false_block = None;
        }
        warnings
    }

    /// The shape of the generated code.
    pub fn translate_shape(&self) -> (r: ChainShape)
        ensures
            r == (if self.cond_blocks@.len() == 0 {
                ChainShape::ElseOnly { has_else: self.false_block is Some }
            } else if self.cond_blocks@[0].cfa.known_value == Some(true) && !self.cond_blocks@[0].cfa.has_side_effects {
                ChainShape::FirstBlockOnly
            } else {
                ChainShape::Full { has_else: self.false_block is Some }
            }),
    {
        if self.cond_blocks.len() == 0 {
            return ChainShape::ElseOnly { has_else: self.false_block.is_some() };
        }
        let first = &self.cond_blocks[0];
        if first.cfa.known_value == Some(true) && !first.cfa.has_side_effects {
            ChainShape::FirstBlockOnly
        } else {
            ChainShape::Full { has_else: self.false_block.is_some() }
        }
    }
}

/// The type narrowing facts that a condition gives: a fact `(v, t)` says
/// that the variable `v` has the type `t`.  `positive` hold where the
/// condition is true, `negative` where it is false.
pub struct BranchFacts {
    pub positive: Vec<(usize, usize)>,
    pub negative: Vec<(usize, usize)>,
}

/// The facts in scope while each part of a chain is type checked (later
/// facts override earlier ones about the same variable).
pub struct NarrowingScopes {
    /// For each condition: the negative facts of the earlier branches.
    pub conditions: Vec<Vec<(usize, usize)>>,
    /// For each branch's block: the earlier negative facts, then the
    /// condition's positive facts; `None` for a block that is not checked
    /// (its condition is always false, or an earlier one always true).
    pub blocks: Vec<Option<Vec<(usize, usize)>>>,
    /// For the `else` block: every negative fact gathered; `None` when there
    /// is no `else` block or an earlier condition is always true.
    pub else_block: Option<Vec<(usize, usize)>>,
}

/// The state of the fact flow after a prefix of the branches.
pub struct FactFlow {
    pub accumulated: Seq<(usize, usize)>,
    pub conditions: Seq<Seq<(usize, usize)>>,
    pub blocks: Seq<Option<Seq<(usize, usize)>>>,
    /// Whether a branch known to be true (without side effects) was seen.
    pub dead: bool,
}

pub open spec fn flow_step(st: FactFlow, b: IfChainBranch, positive: Seq<(usize, usize)>, negative: Seq<(usize, usize)>) -> FactFlow {
    let conditions = st.conditions.push(st.accumulated);
    if st.dead {
        FactFlow { conditions, blocks: st.blocks.push(None), ..st }
    } else if b.cfa.known_value == Some(true) && !b.cfa.has_side_effects {
        FactFlow { conditions, blocks: st.blocks.push(Some(st.accumulated + positive)), dead: true, ..st }
    } else if b.cfa.known_value == Some(false) && !b.cfa.has_side_effects {
        FactFlow { conditions, blocks: st.blocks.push(None), ..st }
    } else {
        FactFlow {
            conditions,
            blocks: st.blocks.push(Some(st.accumulated + positive)),
            accumulated: st.accumulated + negative,
            dead: false,
        }
    }
}

pub open spec fn facts_view(f: BranchFacts) -> (Seq<(usize, usize)>, Seq<(usize, usize)>) {
    (f.positive@, f.negative@)
}

pub open spec fn flow_run(bs: Seq<IfChainBranch>, facts: Seq<(Seq<(usize, usize)>, Seq<(usize, usize)>)>) -> FactFlow
    decreases bs.len(),
{
    if bs.len() == 0 || facts.len() == 0 {
        FactFlow { accumulated: Seq::empty(), conditions: Seq::empty(), blocks: Seq::empty(), dead: false }
    } else {
        flow_step(flow_run(bs.drop_last(), facts.drop_last()), bs.last(), facts.last().0, facts.last().1)
    }
}

pub open spec fn opt_facts_view(o: Option<Vec<(usize, usize)>>) -> Option<Seq<(usize, usize)>> {
    match o {
        Some(v) => Some(v@),
        None => None,
    }
}

/// Adds a copy of `src` to the end of `dst`.
fn extend_facts(dst: &mut Vec<(usize, usize)>, src: &Vec<(usize, usize)>)
    ensures
        final(dst)@ == old(dst)@ + src@,
{
    let mut i: usize = 0;
    while i < src.len()
        invariant
            i <= src@.len(),
            dst@ == old(dst)@ + src@.take(i as int),
        decreases src@.len() - i,
    {
        dst.push(src[i]);
        i = i + 1;
        assert(dst@ =~= old(dst)@ + src@.take(i as int));
    }
    assert(src@.take(src@.len() as int) =~= src@);
}

fn copy_facts(src: &Vec<(usize, usize)>) -> (r: Vec<(usize, usize)>)
    ensures
        r@ == src@,
{
    let mut r: Vec<(usize, usize)> = Vec::new();
    extend_facts(&mut r, src);
    assert(r@ =~= src@);
    r
}

impl IfChain {
    /// The facts in scope for each condition and block while the chain is
    /// type checked, given the facts each branch's condition yields
    /// (`facts[i]` for branch `i`).  An undecided branch adds its negative
    /// facts for the branches after it; a branch known to be true ends the
    /// chain.
    pub fn narrowing_scopes(&self, facts: &Vec<BranchFacts>) -> (r: NarrowingScopes)
        requires
            facts@.len() == self.cond_blocks@.len(),
        ensures
            ({
                let fl = flow_run(self.cond_blocks@, facts@.map_values(|f: BranchFacts| facts_view(f)));
                &&& r.conditions@.map_values(|v: Vec<(usize, usize)>| v@) == fl.conditions
                &&& r.blocks@.map_values(|o: Option<Vec<(usize, usize)>>| opt_facts_view(o)) == fl.blocks
                &&& opt_facts_view(r.else_block) == (if self.false_block is Some && !fl.dead {
                    Some(fl.accumulated)
                } else {
                    None
                })
            }),
    {
        let ghost bs = self.cond_blocks@;
        let ghost fs = facts@.map_values(|f: BranchFacts| facts_view(f));
        let mut accumulated: Vec<(usize, usize)> = Vec::new();
        let mut conditions: Vec<Vec<(usize, usize)>> = Vec::new();
        let mut blocks: Vec<Option<Vec<(usize, usize)>>> = Vec::new();
        let mut dead = false;
        let mut i: usize = 0;
        proof {
            assert(conditions@.map_values(|v: Vec<(usize, usize)>| v@) =~= Seq::<Seq<(usize, usize)>>::empty());
            assert(blocks@.map_values(|o: Option<Vec<(usize, usize)>>| opt_facts_view(o)) =~= Seq::<Option<Seq<(usize, usize)>>>::empty());
        }
        while i < self.cond_blocks.len()
            invariant
                i <= bs.len(),
                bs == self.cond_blocks@,
                fs == facts@.map_values(|f: BranchFacts| facts_view(f)),
                facts@.len() == bs.len(),
                ({
                    let fl = flow_run(bs.take(i as int), fs.take(i as int));
                    &&& accumulated@ == fl.accumulated
                    &&& conditions@.map_values(|v: Vec<(usize, usize)>| v@) == fl.conditions
                    &&& blocks@.map_values(|o: Option<Vec<(usize, usize)>>| opt_facts_view(o)) == fl.blocks
                    &&& dead == fl.dead
                }),
            decreases bs.len() - i,
        {
            let b = self.cond_blocks[i];
            let f = &facts[i];
            let ghost cs = conditions@;
            let ghost bl = blocks@;
            proof {
                assert(bs.take(i + 1).drop_last() =~= bs.take(i as int));
                assert(fs.take(i + 1).drop_last() =~= fs.take(i as int));
                assert(bs.take(i + 1).last() == b);
                assert(fs.take(i + 1).last() == facts_view(*f));
            }
            conditions.push(copy_facts(&accumulated));
            if dead {
                blocks.push(None);
            } else if b.cfa.known_value == Some(true) && !b.cfa.has_side_effects {
                let mut scope = copy_facts(&accumulated);
                extend_facts(&mut scope, &f.positive);
                blocks.push(Some(scope));
                dead = true;
            } else if b.cfa.known_value == Some(false) && !b.cfa.has_side_effects {
                blocks.push(None);
            } else {
                let mut scope = copy_facts(&accumulated);
                extend_facts(&mut scope, &f.positive);
                blocks.push(Some(scope));
                extend_facts(&mut accumulated, &f.negative);
            }
            proof {
                assert(conditions@.map_values(|v: Vec<(usize, usize)>| v@) =~= cs.map_values(|v: Vec<(usize, usize)>| v@).push(
                    flow_run(bs.take(i as int), fs.take(i as int)).accumulated,
                ));
                assert(blocks@.map_values(|o: Option<Vec<(usize, usize)>>| opt_facts_view(o)) =~= bl.map_values(
                    |o: Option<Vec<(usize, usize)>>| opt_facts_view(o),
                ).push(opt_facts_view(blocks@.last())));
            }
            i = i + 1;
        }
        proof {
            assert(bs.take(bs.len() as int) =~= bs);
            assert(fs.take(fs.len() as int) =~= fs);
        }
        let else_block = if self.false_block.is_some() && !dead {
            Some(accumulated)
        } else {
            None
        };
        NarrowingScopes { conditions, blocks, else_block }
    }
}

proof fn lemma_prune_kept_after_true(bs: Seq<IfChainBranch>, allow: bool)
    requires
        bs.len() <= usize::MAX,
    ensures
        ({
            let st = prune_run(bs, allow);
            &&& st.kept.len() <= bs.len()
            &&& st.first_true matches Some((i, _)) ==> (i < bs.len() && bs[i as int].cfa.known_value == Some(true)
                && !bs[i as int].cfa.has_side_effects && st.kept.last() == bs[i as int]
                && st.kept.len() > 0)
            &&& st.first_true is None ==> forall|k: int|
                0 <= k < bs.len() ==> !(bs[k].cfa.known_value == Some(true) && !bs[k].cfa.has_side_effects)
        }),
    decreases bs.len(),
{
    if bs.len() > 0 {
        lemma_prune_kept_after_true(bs.drop_last(), allow);
        let st0 = prune_run(bs.drop_last(), allow);
        if let Some((i, _)) = st0.first_true {
            assert(bs[i as int] == bs.drop_last()[i as int]);
        } else {
            assert forall|k: int| 0 <= k < bs.len() - 1 implies !(bs[k].cfa.known_value == Some(true) && !bs[k].cfa.has_side_effects) by {
                assert(bs[k] == bs.drop_last()[k]);
            }
        }
    }
}

/// Pruning never adds branches, and once a branch is known to be true (and
/// free of side effects) it is kept as the last branch of the chain.
pub proof fn law_prune_stops_at_first_true(bs: Seq<IfChainBranch>, allow_dead_code: bool)
    requires
        bs.len() <= usize::MAX,
    ensures
        ({
            let st = prune_run(bs, allow_dead_code);
            &&& st.kept.len() <= bs.len()
            &&& st.first_true matches Some((i, _)) ==> st.kept.last() == bs[i as int]
                && bs[i as int].cfa.known_value == Some(true)
        }),
{
    lemma_prune_kept_after_true(bs, allow_dead_code);
}

proof fn lemma_prune_unknown_keeps_all(bs: Seq<IfChainBranch>, allow: bool)
    requires
        forall|k: int| 0 <= k < bs.len() ==> (#[trigger] bs[k]).cfa.known_value is None,
    ensures
        prune_run(bs, allow).kept == bs,
        prune_run(bs, allow).warnings == Seq::<DeadCodeWarning>::empty(),
        prune_run(bs, allow).first_true is None,
    decreases bs.len(),
{
    if bs.len() == 0 {
        assert(prune_run(bs, allow).kept =~= bs);
    } else {
        assert forall|k: int| 0 <= k < bs.drop_last().len() implies (#[trigger] bs.drop_last()[k]).cfa.known_value is None by {
            assert(bs.drop_last()[k] == bs[k]);
        }
        lemma_prune_unknown_keeps_all(bs.drop_last(), allow);
        assert(bs.drop_last().push(bs.last()) =~= bs);
    }
}

/// A chain whose conditions are all unknown at compile time is left as it
/// is, without warnings.
pub proof fn law_unknown_conditions_kept(bs: Seq<IfChainBranch>, has_else: bool, allow_dead_code: bool)
    requires
        forall|k: int| 0 <= k < bs.len() ==> (#[trigger] bs[k]).cfa.known_value is None,
    ensures
        prune_run(bs, allow_dead_code).kept == bs,
        prune_warnings(bs, has_else, allow_dead_code) == Seq::<DeadCodeWarning>::empty(),
{
    lemma_prune_unknown_keeps_all(bs, allow_dead_code);
}

/// A chain without a branch known to be true and without `else` never
/// terminates control flow: some path runs no block.
pub proof fn law_no_else_no_termination(bs: Seq<IfChainBranch>)
    requires
        forall|k: int| 0 <= k < bs.len() ==> (#[trigger] bs[k]).cfa.known_value != Some(true),
    ensures
        !chain_terminates(bs, None),
    decreases bs.len(),
{
    if bs.len() > 0 {
        assert forall|k: int| 0 <= k < bs.drop_first().len() implies (#[trigger] bs.drop_first()[k]).cfa.known_value != Some(true) by {
            assert(bs.drop_first()[k] == bs[k + 1]);
        }
        law_no_else_no_termination(bs.drop_first());
    }
}

/// How a single `if cond { } else { }` is compiled, by what is known of its
/// condition.
#[derive(Debug, Clone, Copy, PartialEq, Eq, Structural)]
pub enum ConditionShape {
    /// Known true: the true block alone.
    TrueBlockOnly,
    /// Known false: the false block alone (if any).
    FalseBlockOnly,
    /// `if [ cond != 0 ]; then ... [else ...] fi`.
    Test,
}

/// The dead code warning of an `if` whose condition is known: "Condition is
/// always {value}, '{branch}' block will never execute".
pub open spec fn condition_warning(known: Option<bool>, has_else: bool, allow_dead_code: bool) -> Option<Seq<char>> {
    if allow_dead_code {
        None
    } else {
        match known {
            Some(true) => if has_else {
                Some("Condition is always true, 'else' block will never execute"@)
            } else {
                None
            },
            Some(false) => Some("Condition is always false, 'if' block will never execute"@),
            None => None,
        }
    }
}

/// The compilation shape of an `if` with a condition of known value `known`.
pub fn condition_shape(known: Option<bool>) -> (r: ConditionShape)
    ensures
        r == (match known {
            Some(true) => ConditionShape::TrueBlockOnly,
            Some(false) => ConditionShape::FalseBlockOnly,
            None => ConditionShape::Test,
        }),
{
    match known {
        Some(true) => ConditionShape::TrueBlockOnly,
        Some(false) => ConditionShape::FalseBlockOnly,
        None => ConditionShape::Test,
    }
}

/// The dead code warning of an `if`, if any (see [`condition_warning`]).
pub fn condition_dead_code_warning(known: Option<bool>, has_else: bool, allow_dead_code: bool) -> (r: Option<String>)
    ensures
        crate::text::opt_string_view(r) == condition_warning(known, has_else, allow_dead_code),
{
    if allow_dead_code {
        return None;
    }
    match known {
        Some(true) => if has_else {
            Some(crate::text::owned("Condition is always true, 'else' block will never execute"))
        } else {
            None
        },
        Some(false) => Some(crate::text::owned("Condition is always false, 'if' block will never execute")),
        None => None,
    }
}

/// An `if` with an optional `else`, by what the analysis of its condition
/// found (`known`: its value when it is the same on every run).
pub struct IfCondition<B> {
    pub known: Option<bool>,
    pub true_block: Option<B>,
    pub false_block: Option<B>,
}

/// The warning for an `else` block that holds nothing but another `if`:
/// an if chain should be used instead, unless the compiler flag
/// `flag_name` allows nesting.
pub open spec fn nested_if_warning(else_is_single_if: bool, nesting_allowed: bool, flag_name: Seq<char>) -> Option<
    (Seq<char>, Seq<char>),
> {
    if else_is_single_if && !nesting_allowed {
        Some(
            (
                "You should use if-chain instead of nested if else statements"@,
                suppression_hint(flag_name),
            ),
        )
    } else {
        None
    }
}

impl<B> IfCondition<B> {
    /// The warning (message and comment) for an `else` block whose only
    /// statement is an `if` or an if chain (see [`nested_if_warning`]).
    pub fn nested_if_check(else_is_single_if: bool, nesting_allowed: bool, flag_name: &str) -> (r: Option<(String, String)>)
        ensures
            match r {
                Some((m, c)) => nested_if_warning(else_is_single_if, nesting_allowed, flag_name@) == Some((m@, c@)),
                None => nested_if_warning(else_is_single_if, nesting_allowed, flag_name@) is None,
            },
    {
        if else_is_single_if && !nesting_allowed {
            Some((crate::text::owned("You should use if-chain instead of nested if else statements"), DeadCode::hint(flag_name)))
        } else {
            None
        }
    }

    /// Drops the block that can never run and returns the dead code
    /// warning, if any: with a condition always true the `else` block goes,
    /// with one always false the `if` block goes.
    pub fn typecheck(&mut self, allow_dead_code: bool) -> (r: Option<String>)
        ensures
            crate::text::opt_string_view(r) == condition_warning(
                old(self).known,
                old(self).false_block is Some,
                allow_dead_code,
            ),
            final(self).known == old(self).known,
            final(self).true_block == (if old(self).known == Some(false) {
                None
            } else {
                old(self).true_block
            }),
            final(self).false_block == (if old(self).known == Some(true) {
                None
            } else {
                old(self).false_block
            }),
    {
        let warning = condition_dead_code_warning(self.known, self.false_block.is_some(), allow_dead_code);
        match self.known {
            Some(true) => {
                self.false_block = None;
            },
            Some(false) => {
                self.true_block = None;
            },
            None => {},
        }
        warning
    }
}

/// A `failed` handler (or `?`) after a command.
pub struct Failed {
    pub is_parsed: bool,
    pub is_question_mark: bool,
    pub is_main: bool,
}

impl Failed {
    /// The status handling code: as a failure handler of the same kind.
    pub fn translate_plan(&self, block_empty: bool) -> (r: HandlerPlan)
        ensures
            r == handler_plan(self.is_parsed, FailureType::Failed, self.is_question_mark, self.is_main, false, block_empty),
    {
        if !self.is_parsed {
            HandlerPlan::Nothing
        } else if self.is_question_mark {
            HandlerPlan::Propagate { by_exit: self.is_main, reset_return: !self.is_main }
        } else if block_empty {
            HandlerPlan::StatusOnly
        } else {
            HandlerPlan::RunIf { on_failure: true, bind_param: false }
        }
    }

    /// The shell lines (see [`handler_code`]) for the translated block,
    /// one level of indentation and, for `?` in a function, the function's
    /// return variable with its default value.
    pub fn translate(&self, block: &Vec<String>, indent: &str, fun_return: Option<(&str, &str)>) -> (r: Vec<String>)
        requires
            self.is_parsed && self.is_question_mark && !self.is_main ==> fun_return is Some,
        ensures
            texts(r@) == handler_code(
                handler_plan(self.is_parsed, FailureType::Failed, self.is_question_mark, self.is_main, false, block@.len() == 0),
                texts(block@),
                indent@,
                pair_view(fun_return),
                Seq::empty(),
            ),
    {
        let plan = self.translate_plan(block.len() == 0);
        proof {
            reveal_strlit("");
        }
        emit_handler(plan, block, indent, fun_return, "")
    }
}

/// A `succeeded` handler after a command.
pub struct Succeeded {
    pub is_parsed: bool,
    pub error_position: Option<usize>,
    pub function_name: Option<String>,
    pub is_main: bool,
}

impl Succeeded {
    /// Records where the handled command stands (its first token's index).
    pub fn set_position(&mut self, position: usize)
        ensures
            final(self).error_position == Some(position),
            final(self).is_parsed == old(self).is_parsed,
            final(self).function_name == old(self).function_name,
            final(self).is_main == old(self).is_main,
    {
        self.error_position = Some(position);
    }

    pub fn set_function_name(&mut self, name: String)
        ensures
            final(self).function_name == Some(name),
            final(self).is_parsed == old(self).is_parsed,
            final(self).error_position == old(self).error_position,
            final(self).is_main == old(self).is_main,
    {
        self.function_name = Some(name);
    }

    /// The status handling code: the block runs on status zero.
    pub fn translate_plan(&self, block_empty: bool) -> (r: HandlerPlan)
        ensures
            r == handler_plan(self.is_parsed, FailureType::Succeeded, false, self.is_main, false, block_empty),
    {
        if !self.is_parsed {
            HandlerPlan::Nothing
        } else if block_empty {
            HandlerPlan::StatusOnly
        } else {
            HandlerPlan::RunIf { on_failure: false, bind_param: false }
        }
    }

    /// The shell lines (see [`handler_code`]) for the translated block.
    pub fn translate(&self, block: &Vec<String>) -> (r: Vec<String>)
        ensures
            texts(r@) == handler_code(
                handler_plan(self.is_parsed, FailureType::Succeeded, false, self.is_main, false, block@.len() == 0),
                texts(block@),
                Seq::empty(),
                None,
                Seq::empty(),
            ),
    {
        let plan = self.translate_plan(block.len() == 0);
        proof {
            reveal_strlit("");
        }
        emit_handler(plan, block, "", None, "")
    }
}

/// A `then(status)` handler: its block runs after the command whatever the
/// status, with the status bound to its parameter.
pub struct Then {
    pub is_parsed: bool,
    pub param_name: String,
    pub param_global_id: Option<usize>,
}

impl Then {
    /// The status handling code.
    pub fn translate_plan(&self, block_empty: bool) -> (r: HandlerPlan)
        ensures
            r == handler_plan(self.is_parsed, FailureType::Exited, false, false, true, block_empty),
    {
        if !self.is_parsed {
            HandlerPlan::Nothing
        } else if block_empty {
            HandlerPlan::StatusOnly
        } else {
            HandlerPlan::RunAlways { bind_param: true }
        }
    }

    /// The shell lines (see [`handler_code`]) for the translated block and
    /// the variable of the parameter.
    pub fn translate(&self, block: &Vec<String>, param_var: &str) -> (r: Vec<String>)
        ensures
            texts(r@) == handler_code(
                handler_plan(self.is_parsed, FailureType::Exited, false, false, true, block@.len() == 0),
                texts(block@),
                Seq::empty(),
                None,
                param_var@,
            ),
    {
        let plan = self.translate_plan(block.len() == 0);
        proof {
            reveal_strlit("");
        }
        emit_handler(plan, block, "", None, param_var)
    }
}

} // verus!
