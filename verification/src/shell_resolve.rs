use vstd::prelude::*;
use crate::compiler::{AmberCompiler, is_white_space, is_white_space_char};
use crate::text::{opt_text, owned, copy_string, push_char, same_text, chars_of, contains_chars, contains_text, texts};

verus! {

/// The shell dialect that generated code targets.
#[derive(Debug, Clone, Copy, PartialEq, Eq, Structural)]
pub enum ShellType {
    BashModern,
    BashLegacy,
    Zsh,
    Ksh,
}

/// The name of the shell program of a dialect's family.
pub open spec fn family_of(t: ShellType) -> Seq<char> {
    match t {
        ShellType::BashModern => "bash"@,
        ShellType::BashLegacy => "bash"@,
        ShellType::Zsh => "zsh"@,
        ShellType::Ksh => "ksh"@,
    }
}

/// The dialect written `name` on the command line or in the environment.
pub open spec fn shell_by_name(name: Seq<char>) -> Option<ShellType> {
    if name == "bash"@ {
        Some(ShellType::BashModern)
    } else if name == "bash-3.2"@ {
        Some(ShellType::BashLegacy)
    } else if name == "zsh"@ {
        Some(ShellType::Zsh)
    } else if name == "ksh"@ {
        Some(ShellType::Ksh)
    } else {
        None
    }
}

impl ShellType {
    /// The shell program that runs code of this dialect.
    pub fn family_name(&self) -> (r: &'static str)
        ensures
            r@ == family_of(*self),
    {
        match self {
            ShellType::BashModern => "bash",
            ShellType::BashLegacy => "bash",
            ShellType::Zsh => "zsh",
            ShellType::Ksh => "ksh",
        }
    }

    /// The dialect named `name`, if there is one.
    pub fn from_name(name: &str) -> (r: Option<ShellType>)
        ensures
            r == shell_by_name(name@),
    {
        if same_text(name, "bash") {
            Some(ShellType::BashModern)
        } else if same_text(name, "bash-3.2") {
            Some(ShellType::BashLegacy)
        } else if same_text(name, "zsh") {
            Some(ShellType::Zsh)
        } else if same_text(name, "ksh") {
            Some(ShellType::Ksh)
        } else {
            None
        }
    }
}

/// ASCII upper case letters in lower case, every other character unchanged.
pub open spec fn lower_ascii(c: char) -> char {
    if 'A' <= c && c <= 'Z' {
        ((c as u32) + 32) as char
    } else {
        c
    }
}

fn lower_ascii_char(c: char) -> (r: char)
    ensures
        r == lower_ascii(c),
{
    if 'A' <= c && c <= 'Z' {
        let b = (c as u8) + 32;
        b as char
    } else {
        c
    }
}

/// The dialect that a shell's path names: `zsh`, then `ksh`, then `bash`,
/// found anywhere in the path, ignoring ASCII case.
pub open spec fn target_of_path(shell: Seq<char>) -> Option<ShellType> {
    let l = shell.map_values(|c: char| lower_ascii(c));
    if contains_text(l, "zsh"@) {
        Some(ShellType::Zsh)
    } else if contains_text(l, "ksh"@) {
        Some(ShellType::Ksh)
    } else if contains_text(l, "bash"@) {
        Some(ShellType::BashModern)
    } else {
        None
    }
}


/// The dialect to compile for.
///
/// `target` is the one asked for; `test_target` is the value of the test
/// override (`AMBER_TEST_TARGET`), `amber_shell` the value of `AMBER_SHELL`,
/// and `runtime_shell` the first of `bash`, `zsh` and `ksh` found on the
/// search path.
pub open spec fn resolved_target(
    target: Option<ShellType>,
    test_target: Option<Seq<char>>,
    amber_shell: Option<Seq<char>>,
    runtime_shell: Option<Seq<char>>,
) -> ShellType {
    if target is None && test_target is Some {
        shell_by_name(test_target->0)->0
    } else if target is Some {
        target->0
    } else if amber_shell is Some && target_of_path(amber_shell->0) is Some {
        target_of_path(amber_shell->0)->0
    } else if runtime_shell is Some && target_of_path(runtime_shell->0) is Some {
        target_of_path(runtime_shell->0)->0
    } else {
        ShellType::BashModern
    }
}

/// The shell program that runs generated code.
pub open spec fn runtime_command(
    shell: Option<Seq<char>>,
    target: Option<ShellType>,
    runtime_shell: Option<Seq<char>>,
) -> Option<Seq<char>> {
    if shell is Some {
        shell
    } else if target is Some {
        Some(family_of(target->0))
    } else {
        runtime_shell
    }
}

/// The completed words and the word being read after scanning `s`.
pub open spec fn split_state(s: Seq<char>) -> (Seq<Seq<char>>, Seq<char>)
    decreases s.len(),
{
    if s.len() == 0 {
        (Seq::empty(), Seq::empty())
    } else {
        let (ws, cur) = split_state(s.drop_last());
        let c = s.last();
        if is_white_space(c) {
            if cur.len() > 0 {
                (ws.push(cur), Seq::empty())
            } else {
                (ws, Seq::empty())
            }
        } else {
            (ws, cur.push(c))
        }
    }
}

/// The maximal runs of non white space characters of `s`, in order, as
/// `str::split_whitespace` yields them.
pub open spec fn words(s: Seq<char>) -> Seq<Seq<char>> {
    let (ws, cur) = split_state(s);
    if cur.len() > 0 {
        ws.push(cur)
    } else {
        ws
    }
}

/// The arguments given to `docker` for running generated code: the words of
/// `AMBER_TEST_ARGS`, with `-i` added after a leading `exec` that lacks it,
/// so that standard input reaches the script.
pub open spec fn docker_run_args(args: Seq<char>) -> Seq<Seq<char>> {
    let w = words(args);
    if w.len() > 0 && w[0] == "exec"@ && !w.contains("-i"@) {
        w.insert(1, "-i"@)
    } else {
        w
    }
}

fn split_white_space(s: &str) -> (r: Vec<String>)
    ensures
        texts(r@) == words(s@),
{
    let v = chars_of(s);
    let mut ws: Vec<String> = Vec::new();
    let mut cur: Vec<char> = Vec::new();
    let mut i: usize = 0;
    while i < v.len()
        invariant
            i <= v@.len(),
            v@ == s@,
            (texts(ws@), cur@) == split_state(v@.subrange(0, i as int)),
        decreases v@.len() - i,
    {
        proof {
            assert(v@.subrange(0, i + 1).drop_last() =~= v@.subrange(0, i as int));
        }
        let c = v[i];
        if is_white_space_char(c) {
            if cur.len() > 0 {
                let ghost before = ws@;
                let w = crate::text::string_of(cur.as_slice());
                ws.push(w);
                proof {
                    assert(texts(ws@) =~= texts(before).push(cur@));
                }
                cur = Vec::new();
            } else {
                cur = Vec::new();
            }
            assert(cur@ =~= Seq::<char>::empty());
        } else {
            cur.push(c);
        }
        i = i + 1;
    }
    assert(v@.subrange(0, v@.len() as int) =~= s@);
    if cur.len() > 0 {
        let ghost before = ws@;
        let w = crate::text::string_of(cur.as_slice());
        ws.push(w);
        proof {
            assert(texts(ws@) =~= texts(before).push(cur@));
        }
    }
    ws
}

fn contains_word(v: &Vec<String>, w: &str) -> (r: bool)
    ensures
        r == texts(v@).contains(w@),
{
    let mut i: usize = 0;
    while i < v.len()
        invariant
            i <= v@.len(),
            forall|k: int| 0 <= k < i ==> v@[k]@ != w@,
        decreases v@.len() - i,
    {
        if same_text(v[i].as_str(), w) {
            assert(texts(v@)[i as int] == w@);
            return true;
        }
        i = i + 1;
    }
    assert forall|k: int| 0 <= k < texts(v@).len() implies texts(v@)[k] != w@ by {
        assert(v@[k]@ != w@);
    }
    false
}

fn docker_args(args: &str) -> (r: Vec<String>)
    ensures
        texts(r@) == docker_run_args(args@),
{
    let mut w = split_white_space(args);
    if w.len() > 0 && same_text(w[0].as_str(), "exec") && !contains_word(&w, "-i") {
        let ghost before = w@;
        let flag = owned("-i");
        w.insert(1, flag);
        proof {
            assert(texts(w@) =~= texts(before).insert(1, "-i"@));
        }
    }
    w
}

impl AmberCompiler {
    /// The dialect that a shell's path names, if any.
    pub fn target_from_shell_path(shell: &str) -> (r: Option<ShellType>)
        ensures
            r == target_of_path(shell@),
    {
        let v = chars_of(shell);
        let mut lower: Vec<char> = Vec::new();
        let mut i: usize = 0;
        while i < v.len()
            invariant
                i <= v@.len(),
                lower@ == v@.subrange(0, i as int).map_values(|c: char| lower_ascii(c)),
            decreases v@.len() - i,
        {
            lower.push(lower_ascii_char(v[i]));
            i = i + 1;
            assert(lower@ =~= v@.subrange(0, i as int).map_values(|c: char| lower_ascii(c)));
        }
        assert(v@.subrange(0, v@.len() as int) =~= shell@);
        let zsh = chars_of("zsh");
        let ksh = chars_of("ksh");
        let bash = chars_of("bash");
        if contains_chars(&lower, &zsh) {
            Some(ShellType::Zsh)
        } else if contains_chars(&lower, &ksh) {
            Some(ShellType::Ksh)
        } else if contains_chars(&lower, &bash) {
            Some(ShellType::BashModern)
        } else {
            None
        }
    }

    /// The dialect to compile for; see [`resolved_target`] for what the
    /// arguments hold.  The test override must name a dialect.
    pub fn resolve_target_shell(
        target: Option<ShellType>,
        test_target: Option<&str>,
        amber_shell: Option<&str>,
        runtime_shell: Option<&str>,
    ) -> (r: ShellType)
        requires
            target is None && test_target is Some ==> shell_by_name(test_target->0@) is Some,
        ensures
            r == resolved_target(target, opt_text(test_target), opt_text(amber_shell), opt_text(runtime_shell)),
    {
        if target.is_none() {
            if let Some(name) = test_target {
                match ShellType::from_name(name) {
                    Some(t) => {
                        return t;
                    },
                    None => {
                        assert(false);
                    },
                }
            }
        }
        if let Some(t) = target {
            return t;
        }
        if let Some(shell) = amber_shell {
            if let Some(t) = Self::target_from_shell_path(shell) {
                return t;
            }
        }
        match runtime_shell {
            Some(name) => match Self::target_from_shell_path(name) {
                Some(t) => t,
                None => ShellType::BashModern,
            },
            None => ShellType::BashModern,
        }
    }

    /// The first of `bash`, `zsh` and `ksh` that is found on the search path.
    pub fn find_runtime_shell_name(bash_found: bool, zsh_found: bool, ksh_found: bool) -> (r: Option<String>)
        ensures
            match r {
                Some(s) => (bash_found && s@ == "bash"@) || (!bash_found && zsh_found && s@ == "zsh"@)
                    || (!bash_found && !zsh_found && ksh_found && s@ == "ksh"@),
                None => !bash_found && !zsh_found && !ksh_found,
            },
    {
        if bash_found {
            Some(owned("bash"))
        } else if zsh_found {
            Some(owned("zsh"))
        } else if ksh_found {
            Some(owned("ksh"))
        } else {
            None
        }
    }

    /// The shell program that runs generated code: `AMBER_SHELL` if set,
    /// else the program of the target dialect, else the shell found on the
    /// search path.
    pub fn runtime_shell_command(
        shell: Option<String>,
        target: Option<ShellType>,
        runtime_shell: Option<String>,
    ) -> (r: Option<String>)
        ensures
            crate::text::opt_string_view(r) == runtime_command(
                crate::text::opt_string_view(shell),
                target,
                crate::text::opt_string_view(runtime_shell),
            ),
    {
        if let Some(shell) = shell {
            Some(shell)
        } else if let Some(target) = target {
            Some(owned(target.family_name()))
        } else {
            runtime_shell
        }
    }

    /// The program and arguments that run generated code.  Under the docker
    /// test strategy (`strategy` is `docker`) this is `docker` with the words
    /// of `test_args`; otherwise it is [`Self::runtime_shell_command`].
    pub fn find_shell(
        strategy: Option<&str>,
        test_args: Option<&str>,
        shell: Option<String>,
        target: Option<ShellType>,
        runtime_shell: Option<String>,
    ) -> (r: Option<(String, Vec<String>)>)
        requires
            (strategy matches Some(s) && s@ == "docker"@) ==> test_args is Some,
        ensures
            (strategy matches Some(s) && s@ == "docker"@) ==> (r matches Some(c) && c.0@ == "docker"@
                && texts(c.1@) == docker_run_args(test_args->0@)),
            !(strategy matches Some(s) && s@ == "docker"@) ==> match r {
                Some(c) => Some(c.0@) == runtime_command(
                    crate::text::opt_string_view(shell),
                    target,
                    crate::text::opt_string_view(runtime_shell),
                ) && c.1@.len() == 0,
                None => runtime_command(
                    crate::text::opt_string_view(shell),
                    target,
                    crate::text::opt_string_view(runtime_shell),
                ) is None,
            },
    {
        let docker = match strategy {
            Some(s) => same_text(s, "docker"),
            None => false,
        };
        if docker {
            let args = match test_args {
                Some(a) => a,
                None => {
                    assert(false);
                    ""
                },
            };
            Some((owned("docker"), docker_args(args)))
        } else {
            match Self::runtime_shell_command(shell, target, runtime_shell) {
                Some(program) => Some((program, Vec::new())),
                None => None,
            }
        }
    }

    /// The program and arguments that run code through bash: `docker` with
    /// the words of `test_args` under the docker test strategy, otherwise
    /// `/usr/bin/env bash`.
    pub fn find_bash(strategy: Option<&str>, test_args: Option<&str>) -> (r: (String, Vec<String>))
        requires
            (strategy matches Some(s) && s@ == "docker"@) ==> test_args is Some,
        ensures
            (strategy matches Some(s) && s@ == "docker"@) ==> (r.0@ == "docker"@ && texts(r.1@) == words(
                test_args->0@,
            )),
            !(strategy matches Some(s) && s@ == "docker"@) ==> (r.0@ == "/usr/bin/env"@ && texts(r.1@)
                == seq!["bash"@]),
    {
        let docker = match strategy {
            Some(s) => same_text(s, "docker"),
            None => false,
        };
        if docker {
            let args = match test_args {
                Some(a) => a,
                None => {
                    assert(false);
                    ""
                },
            };
            (owned("docker"), split_white_space(args))
        } else {
            let mut args: Vec<String> = Vec::new();
            args.push(owned("bash"));
            assert(texts(args@) =~= seq!["bash"@]);
            (owned("/usr/bin/env"), args)
        }
    }
}

/// An explicitly requested dialect always wins, whatever the environment
/// holds.
pub proof fn law_explicit_target_wins(
    t: ShellType,
    test_target: Option<Seq<char>>,
    amber_shell: Option<Seq<char>>,
    runtime_shell: Option<Seq<char>>,
)
    ensures
        resolved_target(Some(t), test_target, amber_shell, runtime_shell) == t,
{
}

/// Without an explicit dialect the test override decides, whatever
/// `AMBER_SHELL` and the search path hold.
pub proof fn law_test_override_wins_without_target(
    name: Seq<char>,
    amber_shell: Option<Seq<char>>,
    runtime_shell: Option<Seq<char>>,
)
    requires
        shell_by_name(name) is Some,
    ensures
        resolved_target(None, Some(name), amber_shell, runtime_shell) == shell_by_name(name)->0,
{
}

} // verus!
