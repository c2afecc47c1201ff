use vstd::prelude::*;
use crate::control_flow::{Failed, FailureHandler, FailureType, Succeeded, Then};
use crate::text::{chars_of, owned, push_str, same_text, texts};

verus! {

/// Whether `c` is alphabetic (`char::is_alphabetic`, Unicode's
/// `Alphabetic` property).
pub uninterp spec fn alphabetic(c: char) -> bool;

/// Whether `c` is alphanumeric (`char::is_alphanumeric`: `Alphabetic` or a
/// numeric general category).
pub uninterp spec fn alphanumeric(c: char) -> bool;

/// `char::is_alphabetic`: the result is left to the standard library.
#[verifier::external_body]
fn char_is_alphabetic(c: char) -> (r: bool)
    ensures
        r == alphabetic(c),
{
    c.is_alphabetic()
}

/// `char::is_alphanumeric`: the result is left to the standard library.
#[verifier::external_body]
fn char_is_alphanumeric(c: char) -> (r: bool)
    ensures
        r == alphanumeric(c),
{
    c.is_alphanumeric()
}

/// Where a parse stopped, or what it reports.
#[derive(Debug, PartialEq, Eq)]
pub struct Diagnostic {
    /// The index of the token it is reported at.
    pub at: usize,
    pub message: String,
    pub comment: Option<String>,
}

pub struct DiagnosticView {
    pub at: usize,
    pub message: Seq<char>,
    pub comment: Option<Seq<char>>,
}

impl View for Diagnostic {
    type V = DiagnosticView;

    open spec fn view(&self) -> DiagnosticView {
        DiagnosticView {
            at: self.at,
            message: self.message@,
            comment: crate::text::opt_string_view(self.comment),
        }
    }
}

/// Why a handler could not be parsed.
#[derive(Debug, PartialEq, Eq)]
pub enum HandlerError {
    /// No handler here (at this token index): others may try.
    Quiet(usize),
    /// A handler is malformed.
    Loud(Diagnostic),
}

pub enum HandlerErrorView {
    Quiet(usize),
    Loud(DiagnosticView),
}

/// The start of a handler after a command.
#[derive(Debug, PartialEq, Eq)]
pub enum HandlerHead {
    /// `?`: the failure is propagated; the handler ends before `next`.
    Propagate { next: usize },
    /// A `failed`, `succeeded` or `exited` block starts at `block_start`.
    /// When `guarded`, a quiet failure while parsing the block is reported
    /// as the failure to parse this handler's block.
    Block { failure_type: FailureType, param: Option<String>, block_start: usize, guarded: bool },
    /// No handler, which is accepted where failures are trusted.
    Trusted,
}

pub enum HandlerHeadView {
    Propagate { next: usize },
    Block { failure_type: FailureType, param: Option<Seq<char>>, block_start: usize, guarded: bool },
    Trusted,
}

pub open spec fn head_result_view(r: Result<HandlerHead, HandlerError>) -> Result<HandlerHeadView, HandlerErrorView> {
    match r {
        Ok(HandlerHead::Propagate { next }) => Ok(HandlerHeadView::Propagate { next }),
        Ok(HandlerHead::Block { failure_type, param, block_start, guarded }) => Ok(
            HandlerHeadView::Block {
                failure_type,
                param: crate::text::opt_string_view(param),
                block_start,
                guarded,
            },
        ),
        Ok(HandlerHead::Trusted) => Ok(HandlerHeadView::Trusted),
        Err(HandlerError::Quiet(i)) => Err(HandlerErrorView::Quiet(i)),
        Err(HandlerError::Loud(d)) => Err(HandlerErrorView::Loud(d@)),
    }
}

pub open spec fn check_result_view(r: Result<(), HandlerError>) -> Result<(), HandlerErrorView> {
    match r {
        Ok(()) => Ok(()),
        Err(HandlerError::Quiet(i)) => Err(HandlerErrorView::Quiet(i)),
        Err(HandlerError::Loud(d)) => Err(HandlerErrorView::Loud(d@)),
    }
}

/// Where the handler stands: in a function, in the main block, and whether
/// failures are trusted there.
#[derive(Debug, Clone, Copy, PartialEq, Eq, Structural)]
pub struct HandlerContext {
    pub is_fun_ctx: bool,
    pub is_main_ctx: bool,
    pub is_trust_ctx: bool,
}

/// Whether token `i` of `ws` is `w`.
pub open spec fn word_is(ws: Seq<Seq<char>>, i: int, w: Seq<char>) -> bool {
    0 <= i < ws.len() && ws[i] == w
}

/// A word accepted as a variable name: a letter (or an extension
/// character) first, then letters, digits or extension characters.
pub open spec fn is_variable_word(w: Seq<char>, ext: Seq<char>) -> bool {
    forall|k: int|
        0 <= k < w.len() ==> (if k == 0 {
            alphabetic(#[trigger] w[k]) || ext.contains(w[k])
        } else {
            alphanumeric(w[k]) || ext.contains(w[k])
        })
}

pub open spec fn loud(at: int, message: Seq<char>) -> HandlerErrorView {
    HandlerErrorView::Loud(DiagnosticView { at: at as usize, message, comment: None })
}

/// The keyword of a handler that takes an optional parameter.
pub open spec fn keyword_of(t: FailureType) -> Seq<char> {
    match t {
        FailureType::Failed => "failed"@,
        FailureType::Succeeded => "succeeded"@,
        FailureType::Exited => "exited"@,
    }
}

/// A `failed` or `exited` handler from token `i` (its keyword) on: an
/// optional parameter in parentheses, then the block.
pub open spec fn param_head(ws: Seq<Seq<char>>, i: int, t: FailureType, ext: Seq<char>) -> Result<
    HandlerHeadView,
    HandlerErrorView,
> {
    let failure = "Failed to parse "@ + keyword_of(t) + " block"@;
    if word_is(ws, i + 1, "("@) {
        if word_is(ws, i + 2, ")"@) {
            Err(loud(i + 2, "Parameter name cannot be empty"@))
        } else if !(i + 2 < ws.len() && is_variable_word(ws[i + 2], ext)) {
            Err(loud(i + 2, failure))
        } else if !word_is(ws, i + 3, ")"@) {
            Err(loud(i + 3, failure))
        } else {
            Ok(
                HandlerHeadView::Block {
                    failure_type: t,
                    param: Some(ws[i + 2]),
                    block_start: (i + 4) as usize,
                    guarded: true,
                },
            )
        }
    } else {
        Ok(HandlerHeadView::Block { failure_type: t, param: None, block_start: (i + 1) as usize, guarded: false })
    }
}

/// The start of the handler at token `i` of `ws`.
pub open spec fn handler_head(ws: Seq<Seq<char>>, i: int, ctx: HandlerContext, ext: Seq<char>) -> Result<
    HandlerHeadView,
    HandlerErrorView,
> {
    if word_is(ws, i, "?"@) {
        if !ctx.is_fun_ctx && !ctx.is_main_ctx {
            Err(loud(i, "The '?' operator can only be used in the main block or inside a function body"@))
        } else {
            Ok(HandlerHeadView::Propagate { next: (i + 1) as usize })
        }
    } else if word_is(ws, i, "failed"@) {
        param_head(ws, i, FailureType::Failed, ext)
    } else if word_is(ws, i, "succeeded"@) {
        Ok(HandlerHeadView::Block { failure_type: FailureType::Succeeded, param: None, block_start: (i + 1) as usize, guarded: false })
    } else if word_is(ws, i, "exited"@) {
        param_head(ws, i, FailureType::Exited, ext)
    } else if ctx.is_trust_ctx {
        Ok(HandlerHeadView::Trusted)
    } else {
        Err(HandlerErrorView::Quiet(i as usize))
    }
}

pub open spec fn is_handler_keyword(w: Seq<char>) -> bool {
    w == "failed"@ || w == "succeeded"@ || w == "exited"@
}

/// The warning for a `keyword` handler whose block is empty, at token `at`.
pub open spec fn empty_warning(keyword: Seq<char>, at: usize) -> DiagnosticView {
    DiagnosticView {
        at,
        message: "Empty "@ + keyword + " block"@,
        comment: Some("You should use 'trust' modifier to run commands without handling errors"@),
    }
}

/// The warning for a handler whose block is empty.
pub open spec fn empty_block_warning(t: FailureType, at: usize) -> DiagnosticView {
    empty_warning(keyword_of(t), at)
}

/// The warning for a `keyword` handler (`failed`, `succeeded`, `then`,
/// ...) whose block is empty, reported at token `at`.
pub fn empty_handler_warning(keyword: &str, at: usize) -> (r: Diagnostic)
    ensures
        r@ == empty_warning(keyword@, at),
{
    let mut message = owned("Empty ");
    push_str(&mut message, keyword);
    push_str(&mut message, " block");
    Diagnostic {
        at,
        message,
        comment: Some(owned("You should use 'trust' modifier to run commands without handling errors")),
    }
}

/// After a handler's block: a second handler keyword at token `at` is an
/// error.
pub open spec fn second_handler_check(t: FailureType, next: Option<Seq<char>>, at: usize) -> Result<(), HandlerErrorView> {
    match next {
        Some(w) => if is_handler_keyword(w) {
            Err(
                HandlerErrorView::Loud(
                    DiagnosticView {
                        at,
                        message: "Cannot use both '"@ + keyword_of(t) + "' and '"@ + w
                            + "' blocks for the same command"@,
                        comment: Some(
                            "Use either '"@ + keyword_of(t)
                                + "' to handle both success and failure, 'failed' or 'succeeded' blocks, but not both"@,
                        ),
                    },
                ),
            )
        } else {
            Ok(())
        },
        None => Ok(()),
    }
}

/// Whether token `i` of `words` is `w`.
fn token_is(words: &Vec<String>, i: usize, w: &str) -> (r: bool)
    ensures
        r == word_is(texts(words@), i as int, w@),
{
    if i < words.len() {
        same_text(words[i].as_str(), w)
    } else {
        false
    }
}

fn contains_char(v: &Vec<char>, c: char) -> (r: bool)
    ensures
        r == v@.contains(c),
{
    let mut i: usize = 0;
    while i < v.len()
        invariant
            i <= v@.len(),
            forall|k: int| 0 <= k < i ==> v@[k] != c,
        decreases v@.len() - i,
    {
        if v[i] == c {
            return true;
        }
        i = i + 1;
    }
    false
}

/// Whether `word` is accepted as a variable name, with the extension
/// characters `ext`.
pub fn is_variable_name(word: &str, ext: &Vec<char>) -> (r: bool)
    ensures
        r == is_variable_word(word@, ext@),
{
    let cs = chars_of(word);
    let mut i: usize = 0;
    while i < cs.len()
        invariant
            cs@ == word@,
            i <= cs@.len(),
            forall|k: int|
                0 <= k < i ==> (if k == 0 {
                    alphabetic(#[trigger] cs@[k]) || ext@.contains(cs@[k])
                } else {
                    alphanumeric(cs@[k]) || ext@.contains(cs@[k])
                }),
        decreases cs@.len() - i,
    {
        let c = cs[i];
        let ok = if i == 0 {
            char_is_alphabetic(c) || contains_char(ext, c)
        } else {
            char_is_alphanumeric(c) || contains_char(ext, c)
        };
        if !ok {
            assert(!(if i == 0 {
                alphabetic(cs@[i as int]) || ext@.contains(cs@[i as int])
            } else {
                alphanumeric(cs@[i as int]) || ext@.contains(cs@[i as int])
            }));
            return false;
        }
        i = i + 1;
    }
    true
}

fn loud_error(at: usize, message: String) -> (r: HandlerError)
    ensures
        r matches HandlerError::Loud(d) && d@ == (DiagnosticView { at, message: message@, comment: None }),
{
    HandlerError::Loud(Diagnostic { at, message, comment: None })
}

impl FailureHandler {
    fn parse_param_head(words: &Vec<String>, i: usize, t: FailureType, ext: &Vec<char>) -> (r: Result<HandlerHead, HandlerError>)
        requires
            i < words@.len(),
            i < usize::MAX - 4,
        ensures
            head_result_view(r) == param_head(texts(words@), i as int, t, ext@),
    {
        let ghost ws = texts(words@);
        if token_is(words, i + 1, "(") {
            let mut failure = owned("Failed to parse ");
            push_str(&mut failure, t.to_string());
            push_str(&mut failure, " block");
            assert(failure@ == "Failed to parse "@ + keyword_of(t) + " block"@);
            if token_is(words, i + 2, ")") {
                Err(loud_error(i + 2, owned("Parameter name cannot be empty")))
            } else if !(i + 2 < words.len() && is_variable_name(words[i + 2].as_str(), ext)) {
                Err(loud_error(i + 2, failure))
            } else if !token_is(words, i + 3, ")") {
                Err(loud_error(i + 3, failure))
            } else {
                let param = owned(words[i + 2].as_str());
                Ok(HandlerHead::Block { failure_type: t, param: Some(param), block_start: i + 4, guarded: true })
            }
        } else {
            Ok(HandlerHead::Block { failure_type: t, param: None, block_start: i + 1, guarded: false })
        }
    }

    /// Parses the start of the handler at token `start` of `words`: `?`, or
    /// a `failed`, `succeeded` or `exited` keyword with its optional
    /// parameter.  For `?` and for a trusted missing handler the handler is
    /// complete; for a block, [`FailureHandler::finish_block`] completes it
    /// once the block was parsed.  `ext` are the characters allowed in
    /// variable names besides letters and digits.
    pub fn parse_head(&mut self, words: &Vec<String>, start: usize, ctx: HandlerContext, ext: &Vec<char>) -> (r: Result<
        HandlerHead,
        HandlerError,
    >)
        requires
            start < usize::MAX - 4,
        ensures
            head_result_view(r) == handler_head(texts(words@), start as int, ctx, ext@),
            final(self).function_name == old(self).function_name,
            final(self).error_position == old(self).error_position,
            match r {
                Ok(HandlerHead::Propagate { .. }) => final(self).is_question_mark && final(self).failure_type
                    == FailureType::Failed && final(self).is_parsed && final(self).is_main == ctx.is_main_ctx
                    && final(self).param_name@ == old(self).param_name@,
                Ok(HandlerHead::Trusted) => final(self).is_parsed && final(self).is_main == ctx.is_main_ctx
                    && final(self).is_question_mark == old(self).is_question_mark
                    && final(self).failure_type == old(self).failure_type
                    && final(self).param_name@ == old(self).param_name@,
                Ok(HandlerHead::Block { failure_type, param, .. }) => final(self).failure_type == failure_type
                    && final(self).param_name@ == (match param {
                    Some(p) => p@,
                    None => old(self).param_name@,
                }) && final(self).is_parsed == old(self).is_parsed
                    && final(self).is_main == old(self).is_main
                    && final(self).is_question_mark == old(self).is_question_mark,
                Err(_) => final(self).is_parsed == old(self).is_parsed && final(self).is_main == old(self).is_main
                    && final(self).is_question_mark == old(self).is_question_mark
                    && final(self).param_name@ == old(self).param_name@,
            },
    {
        if token_is(words, start, "?") {
            if !ctx.is_fun_ctx && !ctx.is_main_ctx {
                return Err(
                    loud_error(start, owned("The '?' operator can only be used in the main block or inside a function body")),
                );
            }
            self.is_question_mark = true;
            self.failure_type = FailureType::Failed;
            self.is_main = ctx.is_main_ctx;
            self.is_parsed = true;
            return Ok(HandlerHead::Propagate { next: start + 1 });
        }
        let head = if token_is(words, start, "failed") {
            Self::parse_param_head(words, start, FailureType::Failed, ext)
        } else if token_is(words, start, "succeeded") {
            Ok(HandlerHead::Block { failure_type: FailureType::Succeeded, param: None, block_start: start + 1, guarded: false })
        } else if token_is(words, start, "exited") {
            Self::parse_param_head(words, start, FailureType::Exited, ext)
        } else if ctx.is_trust_ctx {
            self.is_main = ctx.is_main_ctx;
            self.is_parsed = true;
            return Ok(HandlerHead::Trusted);
        } else {
            return Err(HandlerError::Quiet(start));
        };
        match head {
            Ok(HandlerHead::Block { failure_type, param, block_start, guarded }) => {
                self.failure_type = failure_type;
                match &param {
                    Some(p) => {
                        self.param_name = owned(p.as_str());
                    },
                    None => {},
                }
                Ok(HandlerHead::Block { failure_type, param, block_start, guarded })
            },
            other => other,
        }
    }

    /// What parsing the block of a handler head gave, as the handler
    /// reports it: for a `guarded` head (one with a parameter), a quiet
    /// failure at token `i` becomes the error "Failed to parse <keyword>
    /// block" at `i`; any other outcome is passed on unchanged.
    pub fn block_outcome(failure_type: FailureType, guarded: bool, outcome: Result<(), HandlerError>) -> (r: Result<(), HandlerError>)
        ensures
            check_result_view(r) == (match check_result_view(outcome) {
                Err(HandlerErrorView::Quiet(i)) => if guarded {
                    Err(loud(i as int, "Failed to parse "@ + keyword_of(failure_type) + " block"@))
                } else {
                    Err(HandlerErrorView::Quiet(i))
                },
                other => other,
            }),
    {
        match outcome {
            Err(HandlerError::Quiet(i)) => if guarded {
                let mut failure = owned("Failed to parse ");
                push_str(&mut failure, failure_type.to_string());
                push_str(&mut failure, " block");
                Err(loud_error(i, failure))
            } else {
                Err(HandlerError::Quiet(i))
            },
            other => other,
        }
    }

    /// Completes a handler whose block was parsed: `block_empty` says
    /// whether the block holds no statement, `next` is the token after it
    /// (at index `at`).  Returns the warning for an empty block, and an
    /// error when a second handler keyword follows.
    pub fn finish_block(&mut self, block_empty: bool, next: Option<&str>, at: usize, ctx: HandlerContext) -> (r: (
        Option<Diagnostic>,
        Result<(), HandlerError>,
    ))
        ensures
            (match r.0 {
                Some(w) => block_empty && w@ == empty_block_warning(old(self).failure_type, at),
                None => !block_empty,
            }),
            check_result_view(r.1) == second_handler_check(
                old(self).failure_type,
                crate::text::opt_text(next),
                at,
            ),
            final(self).is_parsed == (r.1 is Ok || old(self).is_parsed),
            final(self).is_main == (if r.1 is Ok {
                ctx.is_main_ctx
            } else {
                old(self).is_main
            }),
            final(self).failure_type == old(self).failure_type,
            final(self).is_question_mark == old(self).is_question_mark,
            final(self).param_name == old(self).param_name,
            final(self).function_name == old(self).function_name,
            final(self).error_position == old(self).error_position,
    {
        let keyword = self.failure_type.to_string();
        let warning = if block_empty {
            Some(empty_handler_warning(keyword, at))
        } else {
            None
        };
        if let Some(w) = next {
            if same_text(w, "failed") || same_text(w, "succeeded") || same_text(w, "exited") {
                let mut message = owned("Cannot use both '");
                push_str(&mut message, keyword);
                push_str(&mut message, "' and '");
                push_str(&mut message, w);
                push_str(&mut message, "' blocks for the same command");
                let mut comment = owned("Use either '");
                push_str(&mut comment, keyword);
                push_str(&mut comment, "' to handle both success and failure, 'failed' or 'succeeded' blocks, but not both");
                return (warning, Err(HandlerError::Loud(Diagnostic { at, message, comment: Some(comment) })));
            }
        }
        self.is_main = ctx.is_main_ctx;
        self.is_parsed = true;
        (warning, Ok(()))
    }
}

/// The start of a `failed` handler (older form) after a command.
#[derive(Debug, Clone, Copy, PartialEq, Eq, Structural)]
pub enum FailedHead {
    /// `?`: the failure is propagated; the handler ends before `next`.
    Propagate { next: usize },
    /// `failed {`: the block's statements start at `block_start`, and a
    /// `}` must close them.
    Block { block_start: usize },
    /// `failed:`: one statement, starting at `start`.
    Statement { start: usize },
    /// No handler, accepted where failures are trusted.
    Trusted,
}

pub open spec fn failed_head_view(r: Result<FailedHead, HandlerError>) -> Result<FailedHead, HandlerErrorView> {
    match r {
        Ok(h) => Ok(h),
        Err(HandlerError::Quiet(i)) => Err(HandlerErrorView::Quiet(i)),
        Err(HandlerError::Loud(d)) => Err(HandlerErrorView::Loud(d@)),
    }
}

/// The start of a `failed` handler (older form) at token `i`.
pub open spec fn failed_head(ws: Seq<Seq<char>>, i: int, ctx: HandlerContext) -> Result<FailedHead, HandlerErrorView> {
    let missing = "Failed expression must be followed by a block or statement"@;
    if word_is(ws, i, "?"@) {
        if !ctx.is_fun_ctx && !ctx.is_main_ctx && !ctx.is_trust_ctx {
            Err(loud(i, "The '?' operator can only be used in the main block or function body"@))
        } else {
            Ok(FailedHead::Propagate { next: (i + 1) as usize })
        }
    } else if word_is(ws, i, "failed"@) {
        if word_is(ws, i + 1, "{"@) {
            Ok(FailedHead::Block { block_start: (i + 2) as usize })
        } else if word_is(ws, i + 1, ":"@) {
            Ok(FailedHead::Statement { start: (i + 2) as usize })
        } else {
            Err(loud(i, missing))
        }
    } else if ctx.is_trust_ctx {
        Ok(FailedHead::Trusted)
    } else {
        Err(loud(i, missing))
    }
}

impl Failed {
    /// Parses the start of the handler at token `start`: `?`, or `failed`
    /// with a block or a single statement.  For `?` and a trusted missing
    /// handler the handler is complete; otherwise [`Failed::finish`]
    /// completes it once its block or statement was parsed.
    pub fn parse_head(&mut self, words: &Vec<String>, start: usize, ctx: HandlerContext) -> (r: Result<FailedHead, HandlerError>)
        requires
            start < usize::MAX - 2,
        ensures
            failed_head_view(r) == failed_head(texts(words@), start as int, ctx),
            match r {
                Ok(FailedHead::Propagate { .. }) => final(self).is_question_mark && final(self).is_parsed
                    && final(self).is_main == ctx.is_main_ctx,
                Ok(FailedHead::Trusted) => final(self).is_parsed && final(self).is_main == ctx.is_main_ctx
                    && final(self).is_question_mark == old(self).is_question_mark,
                _ => *final(self) == *old(self),
            },
    {
        let missing = "Failed expression must be followed by a block or statement";
        if token_is(words, start, "?") {
            if !ctx.is_fun_ctx && !ctx.is_main_ctx && !ctx.is_trust_ctx {
                return Err(loud_error(start, owned("The '?' operator can only be used in the main block or function body")));
            }
            self.is_question_mark = true;
            self.finish(ctx);
            return Ok(FailedHead::Propagate { next: start + 1 });
        }
        if token_is(words, start, "failed") {
            if token_is(words, start + 1, "{") {
                Ok(FailedHead::Block { block_start: start + 2 })
            } else if token_is(words, start + 1, ":") {
                Ok(FailedHead::Statement { start: start + 2 })
            } else {
                Err(loud_error(start, owned(missing)))
            }
        } else if ctx.is_trust_ctx {
            self.finish(ctx);
            Ok(FailedHead::Trusted)
        } else {
            Err(loud_error(start, owned(missing)))
        }
    }

    /// Completes the handler once its block or statement was parsed.
    pub fn finish(&mut self, ctx: HandlerContext)
        ensures
            final(self).is_parsed,
            final(self).is_main == ctx.is_main_ctx,
            final(self).is_question_mark == old(self).is_question_mark,
    {
        self.is_main = ctx.is_main_ctx;
        self.is_parsed = true;
    }
}

impl Succeeded {
    /// Parses the start of a `succeeded` handler at token `start`: the
    /// index where its block starts, or `None` when there is none (a
    /// trusted context then counts the handler as parsed).  Once the block
    /// was parsed, [`Succeeded::finish`] completes the handler.
    pub fn parse_head(&mut self, words: &Vec<String>, start: usize, ctx: HandlerContext) -> (r: Option<usize>)
        requires
            start < usize::MAX - 1,
        ensures
            r == (if word_is(texts(words@), start as int, "succeeded"@) {
                Some((start + 1) as usize)
            } else {
                None::<usize>
            }),
            r is None && ctx.is_trust_ctx ==> final(self).is_parsed && final(self).is_main == ctx.is_main_ctx,
            !(r is None && ctx.is_trust_ctx) ==> final(self).is_parsed == old(self).is_parsed && final(self).is_main
                == old(self).is_main,
            final(self).error_position == old(self).error_position,
            final(self).function_name == old(self).function_name,
    {
        if token_is(words, start, "succeeded") {
            Some(start + 1)
        } else {
            if ctx.is_trust_ctx {
                self.finish(ctx);
            }
            None
        }
    }

    /// Completes the handler once its block was parsed.
    pub fn finish(&mut self, ctx: HandlerContext)
        ensures
            final(self).is_parsed,
            final(self).is_main == ctx.is_main_ctx,
            final(self).error_position == old(self).error_position,
            final(self).function_name == old(self).function_name,
    {
        self.is_main = ctx.is_main_ctx;
        self.is_parsed = true;
    }
}

/// The start of a `then(name)` handler at token `i`: `None` when there is
/// none, else its parameter and the index where its block starts.
pub open spec fn then_head(ws: Seq<Seq<char>>, i: int, ext: Seq<char>) -> Result<Option<(Seq<char>, usize)>, HandlerErrorView> {
    if !word_is(ws, i, "then"@) || !word_is(ws, i + 1, "("@) {
        Ok(None)
    } else if word_is(ws, i + 2, ")"@) {
        Err(loud(i + 2, "Parameter name cannot be empty"@))
    } else if !(i + 2 < ws.len() && is_variable_word(ws[i + 2], ext)) {
        Err(HandlerErrorView::Quiet((i + 2) as usize))
    } else if !word_is(ws, i + 3, ")"@) {
        Err(HandlerErrorView::Quiet((i + 3) as usize))
    } else {
        Ok(Some((ws[i + 2], (i + 4) as usize)))
    }
}

pub open spec fn then_head_view(r: Result<Option<(String, usize)>, HandlerError>) -> Result<
    Option<(Seq<char>, usize)>,
    HandlerErrorView,
> {
    match r {
        Ok(Some((p, b))) => Ok(Some((p@, b))),
        Ok(None) => Ok(None),
        Err(HandlerError::Quiet(i)) => Err(HandlerErrorView::Quiet(i)),
        Err(HandlerError::Loud(d)) => Err(HandlerErrorView::Loud(d@)),
    }
}

impl Then {
    /// Parses the start of a `then(name)` handler at token `start`: its
    /// parameter and where its block starts, or `None` when the tokens do
    /// not start one (`then` without `(` belongs to a ternary expression);
    /// a trusted context then counts the handler as parsed.  Once the block
    /// was parsed, [`Then::finish`] completes the handler.
    pub fn parse_head(&mut self, words: &Vec<String>, start: usize, ctx: HandlerContext, ext: &Vec<char>) -> (r: Result<
        Option<(String, usize)>,
        HandlerError,
    >)
        requires
            start < usize::MAX - 4,
        ensures
            then_head_view(r) == then_head(texts(words@), start as int, ext@),
            match r {
                Ok(Some((p, _))) => final(self).param_name@ == p@ && final(self).is_parsed == old(self).is_parsed,
                Ok(None) => final(self).is_parsed == (old(self).is_parsed || ctx.is_trust_ctx)
                    && final(self).param_name@ == old(self).param_name@,
                Err(_) => final(self).is_parsed == old(self).is_parsed && final(self).param_name@ == old(self).param_name@,
            },
            final(self).param_global_id == old(self).param_global_id,
    {
        if !token_is(words, start, "then") || !token_is(words, start + 1, "(") {
            if ctx.is_trust_ctx {
                self.is_parsed = true;
            }
            return Ok(None);
        }
        if token_is(words, start + 2, ")") {
            return Err(loud_error(start + 2, owned("Parameter name cannot be empty")));
        }
        if !(start + 2 < words.len() && is_variable_name(words[start + 2].as_str(), ext)) {
            return Err(HandlerError::Quiet(start + 2));
        }
        if !token_is(words, start + 3, ")") {
            return Err(HandlerError::Quiet(start + 3));
        }
        self.param_name = owned(words[start + 2].as_str());
        Ok(Some((owned(words[start + 2].as_str()), start + 4)))
    }

    /// Completes the handler once its block was parsed.
    pub fn finish(&mut self)
        ensures
            final(self).is_parsed,
            final(self).param_name == old(self).param_name,
            final(self).param_global_id == old(self).param_global_id,
    {
        self.is_parsed = true;
    }
}

} // verus!
