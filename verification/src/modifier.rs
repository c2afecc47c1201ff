use vstd::prelude::*;
use crate::text::{owned, same_text, texts};

verus! {

/// The modifiers written before a command (`trust`, `silent`, `silent_err`,
/// `sudo`), with the index of the token of each.
#[derive(Debug, PartialEq, Eq)]
pub struct CommandModifier {
    pub is_trust: bool,
    pub is_silent: bool,
    pub is_silent_err: bool,
    pub is_sudo: bool,
    pub trust_position: Option<usize>,
    pub silent_position: Option<usize>,
    pub silent_err_position: Option<usize>,
    pub sudo_position: Option<usize>,
}

/// The mathematical content of a [`CommandModifier`].
pub struct ModifierFlags {
    pub trust: bool,
    pub silent: bool,
    pub silent_err: bool,
    pub sudo: bool,
    pub trust_position: Option<usize>,
    pub silent_position: Option<usize>,
    pub silent_err_position: Option<usize>,
    pub sudo_position: Option<usize>,
}

impl View for CommandModifier {
    type V = ModifierFlags;

    open spec fn view(&self) -> ModifierFlags {
        ModifierFlags {
            trust: self.is_trust,
            silent: self.is_silent,
            silent_err: self.is_silent_err,
            sudo: self.is_sudo,
            trust_position: self.trust_position,
            silent_position: self.silent_position,
            silent_err_position: self.silent_err_position,
            sudo_position: self.sudo_position,
        }
    }
}

/// Why a modifier sequence was not accepted.
#[derive(Debug, PartialEq, Eq)]
pub enum ModifierError {
    /// The tokens ended before the command (a quiet failure at this index).
    EndOfInput(usize),
    /// A modifier repeated or combined with one it excludes, at this index.
    Invalid(usize, String),
}

pub enum ModifierErrorView {
    EndOfInput(usize),
    Invalid(usize, Seq<char>),
}

pub open spec fn error_view(e: ModifierError) -> ModifierErrorView {
    match e {
        ModifierError::EndOfInput(i) => ModifierErrorView::EndOfInput(i),
        ModifierError::Invalid(i, m) => ModifierErrorView::Invalid(i, m@),
    }
}

pub open spec fn result_view(r: Result<usize, ModifierError>) -> Result<usize, ModifierErrorView> {
    match r {
        Ok(n) => Ok(n),
        Err(e) => Err(error_view(e)),
    }
}

/// The outcome of scanning modifiers: the flags, the indices of deprecated
/// `unsafe` keywords (each gets a warning), and the index of the first
/// token after the modifiers, or the error.
pub struct ScanOutcome {
    pub flags: ModifierFlags,
    pub warnings: Seq<usize>,
    pub result: Result<usize, ModifierErrorView>,
}

/// Scans the modifier keywords from token `i` on.
pub open spec fn scan_modifiers(m: ModifierFlags, warnings: Seq<usize>, words: Seq<Seq<char>>, i: int) -> ScanOutcome
    decreases words.len() - i,
{
    if i < 0 || i >= words.len() {
        ScanOutcome { flags: m, warnings, result: Err(ModifierErrorView::EndOfInput(i as usize)) }
    } else {
        let w = words[i];
        let at = i as usize;
        if w == "trust"@ || w == "unsafe"@ {
            let warnings2 = if w == "unsafe"@ {
                warnings.push(at)
            } else {
                warnings
            };
            if m.trust {
                ScanOutcome {
                    flags: m,
                    warnings: warnings2,
                    result: Err(ModifierErrorView::Invalid(at, "You already declared `trust` modifier before"@)),
                }
            } else {
                scan_modifiers(ModifierFlags { trust: true, trust_position: Some(at), ..m }, warnings2, words, i + 1)
            }
        } else if w == "silent"@ {
            if m.silent {
                ScanOutcome { flags: m, warnings, result: Err(ModifierErrorView::Invalid(at, "You already declared `silent` modifier before"@)) }
            } else if m.silent_err {
                ScanOutcome {
                    flags: m,
                    warnings,
                    result: Err(ModifierErrorView::Invalid(at, "You already declared `silent_err` modifier before. You can't use them in conjunction."@)),
                }
            } else {
                scan_modifiers(ModifierFlags { silent: true, silent_position: Some(at), ..m }, warnings, words, i + 1)
            }
        } else if w == "silent_err"@ {
            if m.silent {
                ScanOutcome {
                    flags: m,
                    warnings,
                    result: Err(ModifierErrorView::Invalid(at, "You already declared `silent` modifier before. You can't use them in conjunction."@)),
                }
            } else if m.silent_err {
                ScanOutcome {
                    flags: m,
                    warnings,
                    result: Err(ModifierErrorView::Invalid(at, "You already declared `silent_err` modifier before"@)),
                }
            } else {
                scan_modifiers(ModifierFlags { silent_err: true, silent_err_position: Some(at), ..m }, warnings, words, i + 1)
            }
        } else if w == "sudo"@ {
            if m.sudo {
                ScanOutcome {
                    flags: m,
                    warnings,
                    result: Err(ModifierErrorView::Invalid(at, "Command modifier 'sudo' has already been declared"@)),
                }
            } else {
                scan_modifiers(ModifierFlags { sudo: true, sudo_position: Some(at), ..m }, warnings, words, i + 1)
            }
        } else {
            ScanOutcome { flags: m, warnings, result: Ok(at) }
        }
    }
}

impl CommandModifier {
    /// No modifiers.
    pub fn new_expr() -> (r: Self)
        ensures
            !r.is_trust && !r.is_silent && !r.is_silent_err && !r.is_sudo,
            r.trust_position is None && r.silent_position is None,
            r.silent_err_position is None && r.sudo_position is None,
    {
        CommandModifier {
            is_trust: false,
            is_silent: false,
            is_silent_err: false,
            is_sudo: false,
            trust_position: None,
            silent_position: None,
            silent_err_position: None,
            sudo_position: None,
        }
    }

    /// Reads the modifier keywords among `words` from index `start` on.
    /// Returns the index of the first token that is not a modifier; the
    /// index of each deprecated `unsafe` is added to `warnings`.  A `sudo`
    /// modifier that is accepted sets `sudo_used`, the program-wide mark
    /// that the script needs the sudo preamble.
    pub fn parse_modifier_sequence(&mut self, words: &Vec<String>, start: usize, warnings: &mut Vec<usize>, sudo_used: &mut bool) -> (r: Result<usize, ModifierError>)
        ensures
            ({
                let out = scan_modifiers(old(self)@, old(warnings)@, texts(words@), start as int);
                &&& final(self)@ == out.flags
                &&& final(warnings)@ == out.warnings
                &&& result_view(r) == out.result
            }),
            *final(sudo_used) == (*old(sudo_used) || (final(self).is_sudo && !old(self).is_sudo)),
    {
        let ghost ws = texts(words@);
        let ghost target = scan_modifiers(self@, warnings@, ws, start as int);
        let mut i = start;
        loop
            invariant
                ws == texts(words@),
                target == scan_modifiers(old(self)@, old(warnings)@, ws, start as int),
                start <= i,
                scan_modifiers(self@, warnings@, ws, i as int) == target,
                *sudo_used == (*old(sudo_used) || (self.is_sudo && !old(self).is_sudo)),
                old(self).is_sudo ==> self.is_sudo,
            decreases words@.len() - i,
        {
            if i >= words.len() {
                return Err(ModifierError::EndOfInput(i));
            }
            let w = words[i].as_str();
            assert(ws[i as int] == w@);
            if same_text(w, "trust") || same_text(w, "unsafe") {
                if same_text(w, "unsafe") {
                    warnings.push(i);
                }
                if self.is_trust {
                    return Err(ModifierError::Invalid(i, owned("You already declared `trust` modifier before")));
                }
                self.is_trust = true;
                self.trust_position = Some(i);
            } else if same_text(w, "silent") {
                if self.is_silent {
                    return Err(ModifierError::Invalid(i, owned("You already declared `silent` modifier before")));
                }
                if self.is_silent_err {
                    return Err(ModifierError::Invalid(i, owned("You already declared `silent_err` modifier before. You can't use them in conjunction.")));
                }
                self.is_silent = true;
                self.silent_position = Some(i);
            } else if same_text(w, "silent_err") {
                if self.is_silent {
                    return Err(ModifierError::Invalid(i, owned("You already declared `silent` modifier before. You can't use them in conjunction.")));
                }
                if self.is_silent_err {
                    return Err(ModifierError::Invalid(i, owned("You already declared `silent_err` modifier before")));
                }
                self.is_silent_err = true;
                self.silent_err_position = Some(i);
            } else if same_text(w, "sudo") {
                if self.is_sudo {
                    return Err(ModifierError::Invalid(i, owned("Command modifier 'sudo' has already been declared")));
                }
                self.is_sudo = true;
                *sudo_used = true;
                self.sudo_position = Some(i);
            } else {
                return Ok(i);
            }
            i = i + 1;
        }
    }

    /// Whether failures are trusted (ignored) inside the modified command:
    /// the `trust` modifier, or an enclosing trusted context.
    pub fn use_modifiers(&self, outer_trust: bool) -> (r: bool)
        ensures
            r == (self.is_trust || outer_trust),
    {
        self.is_trust || outer_trust
    }
}

proof fn lemma_scan_invariant(m: ModifierFlags, warnings: Seq<usize>, words: Seq<Seq<char>>, i: int)
    requires
        !(m.silent && m.silent_err),
    ensures
        !(scan_modifiers(m, warnings, words, i).flags.silent && scan_modifiers(m, warnings, words, i).flags.silent_err),
        m.trust ==> scan_modifiers(m, warnings, words, i).flags.trust,
        m.sudo ==> scan_modifiers(m, warnings, words, i).flags.sudo,
    decreases words.len() - i,
{
    if 0 <= i < words.len() {
        let at = i as usize;
        let w = words[i];
        let warnings2 = if w == "unsafe"@ {
            warnings.push(at)
        } else {
            warnings
        };
        lemma_scan_invariant(ModifierFlags { trust: true, trust_position: Some(at), ..m }, warnings2, words, i + 1);
        if !m.silent_err {
            lemma_scan_invariant(ModifierFlags { silent: true, silent_position: Some(at), ..m }, warnings, words, i + 1);
        }
        if !m.silent {
            lemma_scan_invariant(ModifierFlags { silent_err: true, silent_err_position: Some(at), ..m }, warnings, words, i + 1);
        }
        lemma_scan_invariant(ModifierFlags { sudo: true, sudo_position: Some(at), ..m }, warnings, words, i + 1);
    }
}

/// `silent` and `silent_err` exclude each other: starting from no
/// modifiers, a scan never ends with both set, whatever the tokens.
pub proof fn law_silent_modes_exclusive(words: Seq<Seq<char>>, start: int)
    ensures
        ({
            let none = ModifierFlags {
                trust: false,
                silent: false,
                silent_err: false,
                sudo: false,
                trust_position: None,
                silent_position: None,
                silent_err_position: None,
                sudo_position: None,
            };
            let out = scan_modifiers(none, Seq::empty(), words, start);
            !(out.flags.silent && out.flags.silent_err)
        }),
{
    let none = ModifierFlags {
        trust: false,
        silent: false,
        silent_err: false,
        sudo: false,
        trust_position: None,
        silent_position: None,
        silent_err_position: None,
        sudo_position: None,
    };
    lemma_scan_invariant(none, Seq::empty(), words, start);
}

/// A token that is not a modifier keyword ends the scan at once, leaving
/// the modifiers as they were.
pub proof fn law_non_modifier_stops(m: ModifierFlags, warnings: Seq<usize>, words: Seq<Seq<char>>, i: int)
    requires
        0 <= i < words.len(),
        words[i] != "trust"@ && words[i] != "unsafe"@ && words[i] != "silent"@,
        words[i] != "silent_err"@ && words[i] != "sudo"@,
    ensures
        scan_modifiers(m, warnings, words, i).result == Ok::<usize, ModifierErrorView>(i as usize),
        scan_modifiers(m, warnings, words, i).flags == m,
{
}

} // verus!
