use vstd::prelude::*;
use crate::text::{opt_string_view, texts};

verus! {

/// A command line flag known to a [`FlagRegistry`].
#[derive(Debug, PartialEq, Eq)]
pub struct Flag {
    pub takes_value: bool,
    pub triggered: bool,
    pub value: Option<String>,
}

/// The mathematical content of a [`Flag`].
pub struct FlagState {
    pub takes_value: bool,
    pub triggered: bool,
    pub value: Option<Seq<char>>,
}


impl View for Flag {
    type V = FlagState;

    open spec fn view(&self) -> FlagState {
        FlagState {
            takes_value: self.takes_value,
            triggered: self.triggered,
            value: opt_string_view(self.value),
        }
    }
}

/// A freshly registered flag: not triggered and without a value.
pub open spec fn fresh_flag(takes_value: bool) -> FlagState {
    FlagState { takes_value, triggered: false, value: None }
}

impl Flag {
    pub fn new(takes_value: bool) -> (flag: Self)
        ensures
            flag@ == fresh_flag(takes_value),
    {
        Flag { takes_value, triggered: false, value: None }
    }
}

/// The argument that separates flags from pass-through arguments.
pub open spec fn separator() -> Seq<char> {
    seq!['-', '-']
}

/// The state of the flag parser after a prefix of the arguments.
pub struct ParseState {
    pub flags: Map<Seq<char>, FlagState>,
    /// Arguments after the `--` separator (collected by the registry).
    pub extra: Seq<Seq<char>>,
    /// Arguments that are neither flags, flag values nor the separator.
    pub positional: Seq<Seq<char>>,
    /// The value-taking flag that was seen last, if any.
    pub value_flag: Option<Seq<char>>,
    /// Whether the `--` separator has been seen.
    pub after_separator: bool,
}

pub open spec fn initial_parse_state(flags: Map<Seq<char>, FlagState>) -> ParseState {
    ParseState {
        flags,
        extra: Seq::empty(),
        positional: Seq::empty(),
        value_flag: None,
        after_separator: false,
    }
}

/// One step of the flag parser on one argument.
///
/// Once a value-taking flag has been seen, every later argument is stored as
/// its value (the last one wins); the separator is then no longer recognised.
pub open spec fn parse_step(st: ParseState, arg: Seq<char>) -> ParseState {
    if st.after_separator {
        ParseState { extra: st.extra.push(arg), ..st }
    } else if st.value_flag is Some {
        let name = st.value_flag->0;
        let f = st.flags[name];
        ParseState {
            flags: st.flags.insert(
                name,
                FlagState { takes_value: f.takes_value, triggered: f.triggered, value: Some(arg) },
            ),
            ..st
        }
    } else if st.flags.contains_key(arg) {
        let f = st.flags[arg];
        ParseState {
            flags: st.flags.insert(
                arg,
                FlagState { takes_value: f.takes_value, triggered: true, value: f.value },
            ),
            value_flag: if f.takes_value {
                Some(arg)
            } else {
                None
            },
            ..st
        }
    } else if arg == separator() {
        ParseState { after_separator: true, ..st }
    } else {
        ParseState { positional: st.positional.push(arg), ..st }
    }
}

/// The parser run over a whole argument list.
pub open spec fn parse_run(st: ParseState, args: Seq<Seq<char>>) -> ParseState
    decreases args.len(),
{
    if args.len() == 0 {
        st
    } else {
        parse_step(parse_run(st, args.drop_last()), args.last())
    }
}

/// Running the parser over `a + b` is running it over `a`, then over `b`.
proof fn lemma_run_append(st: ParseState, a: Seq<Seq<char>>, b: Seq<Seq<char>>)
    ensures
        parse_run(st, a + b) == parse_run(parse_run(st, a), b),
    decreases b.len(),
{
    if b.len() == 0 {
        assert(a + b =~= a);
    } else {
        lemma_run_append(st, a, b.drop_last());
        assert((a + b).drop_last() =~= a + b.drop_last());
        assert((a + b).last() == b.last());
    }
}

/// Well-formedness of a parser state with respect to the registered flags `m`.
pub open spec fn run_consistent(m: Map<Seq<char>, FlagState>, st: ParseState) -> bool {
    &&& st.flags.dom() == m.dom()
    &&& forall|k: Seq<char>| #[trigger] st.flags.contains_key(k) ==> st.flags[k].takes_value
        == m[k].takes_value && (m[k].triggered ==> st.flags[k].triggered)
    &&& st.value_flag is Some ==> st.flags.contains_key(st.value_flag->0)
    &&& forall|j: int|
        0 <= j < st.positional.len() ==> !m.contains_key(#[trigger] st.positional[j])
            && st.positional[j] != separator()
}

proof fn lemma_run_consistent(m: Map<Seq<char>, FlagState>, args: Seq<Seq<char>>)
    ensures
        run_consistent(m, parse_run(initial_parse_state(m), args)),
    decreases args.len(),
{
    if args.len() == 0 {
        assert(run_consistent(m, initial_parse_state(m)));
    } else {
        lemma_run_consistent(m, args.drop_last());
        let st = parse_run(initial_parse_state(m), args.drop_last());
        let nx = parse_step(st, args.last());
        assert(nx.flags.dom() =~= m.dom());
    }
}

/// Parsing never adds or removes a registered flag, never changes whether a
/// flag takes a value, and never clears a triggered flag.
pub proof fn law_parse_keeps_registered_flags(
    flags: Map<Seq<char>, FlagState>,
    args: Seq<Seq<char>>,
)
    ensures
        ({
            let run = parse_run(initial_parse_state(flags), args);
            &&& run.flags.dom() == flags.dom()
            &&& forall|k: Seq<char>| #[trigger] flags.contains_key(k) ==> run.flags[k].takes_value
                == flags[k].takes_value && (flags[k].triggered ==> run.flags[k].triggered)
        }),
{
    lemma_run_consistent(flags, args);
}

/// No argument returned by parsing is a registered flag name or the `--`
/// separator.
pub proof fn law_parse_returns_no_flags(flags: Map<Seq<char>, FlagState>, args: Seq<Seq<char>>)
    ensures
        ({
            let run = parse_run(initial_parse_state(flags), args);
            forall|j: int|
                0 <= j < run.positional.len() ==> !flags.contains_key(#[trigger] run.positional[j])
                    && run.positional[j] != separator()
        }),
{
    lemma_run_consistent(flags, args);
}

/// Plain arguments (neither registered flags nor `--`) pass through unchanged.
proof fn lemma_plain_args(flags: Map<Seq<char>, FlagState>, p: Seq<Seq<char>>)
    requires
        forall|j: int| 0 <= j < p.len() ==> !flags.contains_key(#[trigger] p[j]) && p[j] != separator(),
    ensures
        parse_run(initial_parse_state(flags), p) == (ParseState { positional: p, ..initial_parse_state(flags) }),
    decreases p.len(),
{
    if p.len() == 0 {
        assert(initial_parse_state(flags).positional =~= p);
    } else {
        lemma_plain_args(flags, p.drop_last());
        assert(p.drop_last().push(p.last()) =~= p);
    }
}

/// After the separator every argument is collected as a pass-through argument.
proof fn lemma_after_separator(st: ParseState, q: Seq<Seq<char>>)
    requires
        st.after_separator,
    ensures
        parse_run(st, q) == (ParseState { extra: st.extra + q, ..st }),
    decreases q.len(),
{
    if q.len() == 0 {
        assert(st.extra + q =~= st.extra);
    } else {
        lemma_after_separator(st, q.drop_last());
        assert((st.extra + q.drop_last()).push(q.last()) =~= st.extra + q);
    }
}

/// For `p -- q` where `p` holds no registered flag and no separator, parsing
/// returns `p`, collects `q` as pass-through arguments and leaves the flags
/// unchanged.
pub proof fn law_separator_splits_arguments(
    flags: Map<Seq<char>, FlagState>,
    p: Seq<Seq<char>>,
    q: Seq<Seq<char>>,
)
    requires
        forall|j: int| 0 <= j < p.len() ==> !flags.contains_key(#[trigger] p[j]) && p[j] != separator(),
        !flags.contains_key(separator()),
    ensures
        ({
            let run = parse_run(initial_parse_state(flags), p + seq![separator()] + q);
            &&& run.positional == p
            &&& run.extra == q
            &&& run.flags == flags
        }),
{
    let init = initial_parse_state(flags);
    lemma_plain_args(flags, p);
    lemma_run_append(init, p, seq![separator()]);
    let st = parse_run(init, p + seq![separator()]);
    assert((p + seq![separator()]).drop_last() =~= p);
    assert((p + seq![separator()]).last() == separator());
    assert(st == parse_step(parse_run(init, p), separator()));
    assert(st.after_separator);
    lemma_run_append(init, p + seq![separator()], q);
    lemma_after_separator(st, q);
    assert(st.extra + q =~= q);
}

/// A registered value-taking flag followed by an argument is triggered and
/// receives that argument as its value.
pub proof fn law_value_flag_takes_next_argument(
    flags: Map<Seq<char>, FlagState>,
    name: Seq<char>,
    value: Seq<char>,
)
    requires
        flags.contains_key(name),
        flags[name].takes_value,
    ensures
        ({
            let run = parse_run(initial_parse_state(flags), seq![name, value]);
            &&& run.flags[name].triggered
            &&& run.flags[name].value == Some(value)
            &&& run.positional == Seq::<Seq<char>>::empty()
        }),
{
    let init = initial_parse_state(flags);
    let s2 = seq![name, value];
    assert(s2.drop_last() =~= seq![name]);
    assert(seq![name].drop_last() =~= Seq::<Seq<char>>::empty());
    let s1 = parse_run(init, seq![name]);
    assert(s1 == parse_step(parse_run(init, Seq::<Seq<char>>::empty()), name));
    assert(s1 == parse_step(init, name));
    assert(parse_run(init, s2) == parse_step(s1, value));
}

/// Registering a flag makes it visible, fresh, under its name, and leaves
/// every other flag as it was.
pub proof fn law_register_then_lookup(
    flags: Map<Seq<char>, FlagState>,
    name: Seq<char>,
    takes_value: bool,
    other: Seq<char>,
)
    ensures
        flags.insert(name, fresh_flag(takes_value)).contains_key(name),
        flags.insert(name, fresh_flag(takes_value))[name] == fresh_flag(takes_value),
        !flags.insert(name, fresh_flag(takes_value))[name].triggered,
        other != name ==> (flags.insert(name, fresh_flag(takes_value)).contains_key(other)
            == flags.contains_key(other) && flags.insert(name, fresh_flag(takes_value))[other]
            == flags[other]),
{
}

/// The mathematical content of a [`FlagRegistry`].
pub struct RegistryState {
    pub flags: Map<Seq<char>, FlagState>,
    pub args: Seq<Seq<char>>,
}

/// Registered flags by name, and the arguments collected after `--`.
pub struct FlagRegistry {
    flags: Vec<(String, Flag)>,
    args: Vec<String>,
}

pub open spec fn names_distinct(s: Seq<(String, Flag)>) -> bool {
    forall|i: int, j: int|
        0 <= i < s.len() && 0 <= j < s.len() && i != j ==> s[i].0@ != s[j].0@
}

pub closed spec fn flag_map(s: Seq<(String, Flag)>) -> Map<Seq<char>, FlagState> {
    Map::new(
        |k: Seq<char>| exists|i: int| 0 <= i < s.len() && s[i].0@ == k,
        |k: Seq<char>| s[choose|i: int| 0 <= i < s.len() && s[i].0@ == k].1@,
    )
}

proof fn lemma_flag_map_index(s: Seq<(String, Flag)>, i: int)
    requires
        names_distinct(s),
        0 <= i < s.len(),
    ensures
        flag_map(s).contains_key(s[i].0@),
        flag_map(s)[s[i].0@] == s[i].1@,
{
    let k = s[i].0@;
    assert(exists|j: int| 0 <= j < s.len() && s[j].0@ == k);
    let j = choose|j: int| 0 <= j < s.len() && s[j].0@ == k;
    assert(j == i);
}

proof fn lemma_flag_map_absent(s: Seq<(String, Flag)>, k: Seq<char>)
    requires
        forall|i: int| 0 <= i < s.len() ==> s[i].0@ != k,
    ensures
        !flag_map(s).contains_key(k),
{
}

proof fn lemma_flag_map_update(s: Seq<(String, Flag)>, i: int, e: (String, Flag))
    requires
        names_distinct(s),
        0 <= i < s.len(),
        e.0@ == s[i].0@,
    ensures
        names_distinct(s.update(i, e)),
        flag_map(s.update(i, e)) == flag_map(s).insert(e.0@, e.1@),
{
    let t = s.update(i, e);
    assert(names_distinct(t));
    lemma_flag_map_index(t, i);
    assert forall|k: Seq<char>| #[trigger] flag_map(t).contains_key(k) <==> flag_map(s).insert(e.0@, e.1@).contains_key(k) by {
        if flag_map(t).contains_key(k) {
            let j = choose|j: int| 0 <= j < t.len() && t[j].0@ == k;
            if j != i {
                assert(s[j].0@ == k);
            }
        }
        if flag_map(s).contains_key(k) {
            let j = choose|j: int| 0 <= j < s.len() && s[j].0@ == k;
            if j != i {
                assert(t[j].0@ == k);
            }
        }
    }
    assert forall|k: Seq<char>| #[trigger] flag_map(t).contains_key(k) implies flag_map(t)[k]
        == flag_map(s).insert(e.0@, e.1@)[k] by {
        let j = choose|j: int| 0 <= j < t.len() && t[j].0@ == k;
        lemma_flag_map_index(t, j);
        if j != i {
            lemma_flag_map_index(s, j);
        }
    }
    assert(flag_map(t) =~= flag_map(s).insert(e.0@, e.1@));
}

proof fn lemma_flag_map_push(s: Seq<(String, Flag)>, e: (String, Flag))
    requires
        names_distinct(s),
        forall|i: int| 0 <= i < s.len() ==> s[i].0@ != e.0@,
    ensures
        names_distinct(s.push(e)),
        flag_map(s.push(e)) == flag_map(s).insert(e.0@, e.1@),
{
    let t = s.push(e);
    assert(names_distinct(t));
    lemma_flag_map_index(t, s.len() as int);
    assert forall|k: Seq<char>| #[trigger] flag_map(t).contains_key(k) <==> flag_map(s).insert(e.0@, e.1@).contains_key(k) by {
        if flag_map(t).contains_key(k) {
            let j = choose|j: int| 0 <= j < t.len() && t[j].0@ == k;
            if j < s.len() {
                assert(s[j].0@ == k);
            }
        }
        if flag_map(s).contains_key(k) {
            let j = choose|j: int| 0 <= j < s.len() && s[j].0@ == k;
            assert(t[j].0@ == k);
        }
    }
    assert forall|k: Seq<char>| #[trigger] flag_map(t).contains_key(k) implies flag_map(t)[k]
        == flag_map(s).insert(e.0@, e.1@)[k] by {
        let j = choose|j: int| 0 <= j < t.len() && t[j].0@ == k;
        lemma_flag_map_index(t, j);
        if j < s.len() {
            lemma_flag_map_index(s, j);
        }
    }
    assert(flag_map(t) =~= flag_map(s).insert(e.0@, e.1@));
}

proof fn lemma_flag_map_empty()
    ensures
        flag_map(Seq::<(String, Flag)>::empty()) == Map::<Seq<char>, FlagState>::empty(),
{
    assert(flag_map(Seq::<(String, Flag)>::empty()) =~= Map::<Seq<char>, FlagState>::empty());
}

/// Index of the entry named `name`, if there is one.
fn find_flag(flags: &Vec<(String, Flag)>, name: &String) -> (r: Option<usize>)
    ensures
        match r {
            Some(i) => i < flags@.len() && flags@[i as int].0@ == name@,
            None => forall|i: int| 0 <= i < flags@.len() ==> flags@[i].0@ != name@,
        },
{
    let mut i: usize = 0;
    while i < flags.len()
        invariant
            i <= flags@.len(),
            forall|j: int| 0 <= j < i ==> flags@[j].0@ != name@,
        decreases flags@.len() - i,
    {
        if flags[i].0 == *name {
            return Some(i);
        }
        i = i + 1;
    }
    None
}

/// Whether `arg` is the `--` separator.
fn is_separator(arg: &String) -> (r: bool)
    ensures
        r == (arg@ == separator()),
{
    let s = arg.as_str();
    if s.unicode_len() != 2 {
        return false;
    }
    let a = s.get_char(0);
    let b = s.get_char(1);
    if a == '-' && b == '-' {
        assert(arg@ =~= separator());
        true
    } else {
        false
    }
}

fn clone_string(s: &String) -> (r: String)
    ensures
        r@ == s@,
{
    s.clone()
}

impl View for FlagRegistry {
    type V = RegistryState;

    closed spec fn view(&self) -> RegistryState {
        RegistryState { flags: flag_map(self.flags@), args: texts(self.args@) }
    }
}

impl FlagRegistry {
    #[verifier::type_invariant]
    spec fn inv(self) -> bool {
        names_distinct(self.flags@)
    }

    pub fn new() -> (r: Self)
        ensures
            r@.flags == Map::<Seq<char>, FlagState>::empty(),
            r@.args == Seq::<Seq<char>>::empty(),
    {
        let r = FlagRegistry { flags: Vec::new(), args: Vec::new() };
        proof {
            lemma_flag_map_empty();
            assert(texts(r.args@) =~= Seq::<Seq<char>>::empty());
        }
        r
    }

    /// The flag registered under `name`.
    pub fn get_flag(&self, name: &str) -> (r: Option<&Flag>)
        ensures
            match r {
                Some(f) => self@.flags.contains_key(name@) && f@ == self@.flags[name@],
                None => !self@.flags.contains_key(name@),
            },
    {
        proof {
            use_type_invariant(&*self);
        }
        let key = name.to_owned();
        match find_flag(&self.flags, &key) {
            Some(i) => {
                proof {
                    lemma_flag_map_index(self.flags@, i as int);
                }
                Some(&self.flags[i].1)
            },
            None => {
                proof {
                    lemma_flag_map_absent(self.flags@, name@);
                }
                None
            },
        }
    }

    /// The arguments that followed the `--` separator in parsed argument lists.
    pub fn get_args(&self) -> (r: &Vec<String>)
        ensures
            texts(r@) == self@.args,
    {
        &self.args
    }

    /// Whether the flag `name` is registered and was triggered.
    pub fn flag_triggered(&self, name: &str) -> (r: bool)
        ensures
            r == (self@.flags.contains_key(name@) && self@.flags[name@].triggered),
    {
        match self.get_flag(name) {
            Some(flag) => flag.triggered,
            None => false,
        }
    }

    /// Registers (or re-registers, resetting it) the flag `name`.
    pub fn register(&mut self, name: &str, takes_value: bool)
        ensures
            final(self)@.flags == old(self)@.flags.insert(name@, fresh_flag(takes_value)),
            final(self)@.args == old(self)@.args,
    {
        proof {
            use_type_invariant(&*self);
        }
        let key = name.to_owned();
        let entry = (clone_string(&key), Flag::new(takes_value));
        let mut flags: Vec<(String, Flag)> = Vec::new();
        std::mem::swap(&mut flags, &mut self.flags);
        let ghost old_flags = flags@;
        match find_flag(&flags, &key) {
            Some(i) => {
                proof {
                    lemma_flag_map_update(old_flags, i as int, entry);
                }
                flags.set(i, entry);
            },
            None => {
                proof {
                    lemma_flag_map_push(old_flags, entry);
                }
                flags.push(entry);
            },
        }
        std::mem::swap(&mut flags, &mut self.flags);
    }

    /// Parses an argument list: registered flags are marked as triggered, a
    /// value-taking flag receives the argument after it, arguments after `--`
    /// are collected by the registry, and the remaining arguments are returned
    /// in order.
    pub fn parse(&mut self, args: Vec<String>) -> (result: Vec<String>)
        ensures
            ({
                let run = parse_run(initial_parse_state(old(self)@.flags), texts(args@));
                &&& texts(result@) == run.positional
                &&& final(self)@.flags == run.flags
                &&& final(self)@.args == old(self)@.args + run.extra
            }),
    {
        proof {
            use_type_invariant(&*self);
        }
        let ghost argv = texts(args@);
        let ghost init = initial_parse_state(old(self)@.flags);
        let ghost old_args = texts(old(self).args@);
        let mut flags: Vec<(String, Flag)> = Vec::new();
        std::mem::swap(&mut flags, &mut self.flags);
        let mut extra: Vec<String> = Vec::new();
        std::mem::swap(&mut extra, &mut self.args);
        let mut result: Vec<String> = Vec::new();
        let mut value_flag: Option<usize> = None;
        let mut is_args = false;
        let mut i: usize = 0;
        proof {
            assert(result@ =~= Seq::<String>::empty());
            assert(texts(result@) =~= Seq::<Seq<char>>::empty());
            assert(old_args + Seq::<Seq<char>>::empty() =~= old_args);
            assert(argv.take(0) =~= Seq::<Seq<char>>::empty());
        }
        while i < args.len()
            invariant
                i <= args@.len(),
                argv == texts(args@),
                names_distinct(flags@),
                self.flags@ == Seq::<(String, Flag)>::empty(),
                self.args@ == Seq::<String>::empty(),
                ({
                    let st = parse_run(init, argv.take(i as int));
                    &&& flag_map(flags@) == st.flags
                    &&& texts(result@) == st.positional
                    &&& texts(extra@) == old_args + st.extra
                    &&& is_args == st.after_separator
                    &&& match value_flag {
                        Some(idx) => idx < flags@.len() && st.value_flag == Some(flags@[idx as int].0@),
                        None => st.value_flag is None,
                    }
                }),
            decreases args@.len() - i,
        {
            let ghost st = parse_run(init, argv.take(i as int));
            let arg = &args[i];
            proof {
                assert(argv.take(i + 1).drop_last() =~= argv.take(i as int));
                assert(argv.take(i + 1).last() == arg@);
            }
            if is_args {
                let ghost before = extra@;
                let copied = clone_string(arg);
                extra.push(copied);
                proof {
                    assert(extra@ == before.push(copied));
                    assert(texts(extra@) =~= texts(before).push(arg@));
                    assert(old_args + st.extra.push(arg@) =~= (old_args + st.extra).push(arg@));
                }
            } else if let Some(idx) = value_flag {
                let ghost before = flags@;
                let new_value = Some(clone_string(arg));
                flags[idx].1.value = new_value;
                proof {
                    lemma_flag_map_index(before, idx as int);
                    lemma_flag_map_update(before, idx as int, flags@[idx as int]);
                    assert(before.update(idx as int, flags@[idx as int]) =~= flags@);
                }
            } else {
                match find_flag(&flags, arg) {
                    Some(idx) => {
                        let ghost before = flags@;
                        flags[idx].1.triggered = true;
                        proof {
                            lemma_flag_map_index(before, idx as int);
                            lemma_flag_map_update(before, idx as int, flags@[idx as int]);
                            assert(before.update(idx as int, flags@[idx as int]) =~= flags@);
                        }
                        if flags[idx].1.takes_value {
                            value_flag = Some(idx);
                        }
                    },
                    None => {
                        proof {
                            lemma_flag_map_absent(flags@, arg@);
                        }
                        if is_separator(arg) {
                            is_args = true;
                        } else {
                            result.push(clone_string(arg));
                            proof {
                                assert(texts(result@) =~= st.positional.push(arg@));
                            }
                        }
                    },
                }
            }
            i = i + 1;
        }
        proof {
            assert(argv.take(args@.len() as int) =~= argv);
        }
        std::mem::swap(&mut flags, &mut self.flags);
        std::mem::swap(&mut extra, &mut self.args);
        result
    }
}

impl Default for FlagRegistry {
    fn default() -> (r: Self)
        ensures
            r@.flags == Map::<Seq<char>, FlagState>::empty(),
            r@.args == Seq::<Seq<char>>::empty(),
    {
        Self::new()
    }
}

/// One call on a registry: `register(name, takes_value)` or `parse(args)`.
pub enum RegistryOp {
    Register(Seq<char>, bool),
    Parse(Seq<Seq<char>>),
}

/// The registry after one call, as the contracts of
/// [`FlagRegistry::register`] and [`FlagRegistry::parse`] give it.
pub open spec fn apply_op(s: RegistryState, op: RegistryOp) -> RegistryState {
    match op {
        RegistryOp::Register(name, takes_value) => RegistryState {
            flags: s.flags.insert(name, fresh_flag(takes_value)),
            args: s.args,
        },
        RegistryOp::Parse(args) => {
            let run = parse_run(initial_parse_state(s.flags), args);
            RegistryState { flags: run.flags, args: s.args + run.extra }
        },
    }
}

/// The registry after a sequence of calls.
pub open spec fn apply_ops(s: RegistryState, ops: Seq<RegistryOp>) -> RegistryState
    decreases ops.len(),
{
    if ops.len() == 0 {
        s
    } else {
        apply_op(apply_ops(s, ops.drop_last()), ops.last())
    }
}

/// A new registry, as [`FlagRegistry::new`] gives it.
pub open spec fn empty_registry() -> RegistryState {
    RegistryState { flags: Map::empty(), args: Seq::empty() }
}

/// Whether the call `op` registers `name`.
pub open spec fn registers(op: RegistryOp, name: Seq<char>) -> bool {
    match op {
        RegistryOp::Register(n, _) => n == name,
        RegistryOp::Parse(_) => false,
    }
}

/// Whether `name` was registered by one of the calls.
pub open spec fn registered_in(ops: Seq<RegistryOp>, name: Seq<char>) -> bool {
    exists|i: int| 0 <= i < ops.len() && registers(#[trigger] ops[i], name)
}

/// Whether the parser stops reading flags at `arg`: a registered flag that
/// takes a value (every later argument becomes its value), or an
/// unregistered `--` (every later argument is passed through).
pub open spec fn stops_at(flags: Map<Seq<char>, FlagState>, arg: Seq<char>) -> bool {
    if flags.contains_key(arg) {
        flags[arg].takes_value
    } else {
        arg == separator()
    }
}

/// The index of the first argument at which the parser stops reading flags
/// (see [`stops_at`]), if there is one.
pub open spec fn first_stop(flags: Map<Seq<char>, FlagState>, args: Seq<Seq<char>>) -> Option<int>
    decreases args.len(),
{
    if args.len() == 0 {
        None
    } else {
        match first_stop(flags, args.drop_last()) {
            Some(p) => Some(p),
            None => if stops_at(flags, args.last()) {
                Some(args.len() - 1)
            } else {
                None
            },
        }
    }
}

/// The arguments that parsing `args` passes through: those after the first
/// stop when that stop is an unregistered `--`; none when there is no stop
/// or the first stop is a value-taking flag.
pub open spec fn pass_through_of(flags: Map<Seq<char>, FlagState>, args: Seq<Seq<char>>) -> Seq<Seq<char>> {
    match first_stop(flags, args) {
        Some(p) => if flags.contains_key(args[p]) {
            Seq::empty()
        } else {
            args.subrange(p + 1, args.len() as int)
        },
        None => Seq::empty(),
    }
}

/// The arguments each `parse` call passes through, one call after the
/// other, each against the flags registered at its time.
pub open spec fn passed_through(s: RegistryState, ops: Seq<RegistryOp>) -> Seq<Seq<char>>
    decreases ops.len(),
{
    if ops.len() == 0 {
        Seq::empty()
    } else {
        passed_through(s, ops.drop_last()) + match ops.last() {
            RegistryOp::Parse(args) => pass_through_of(apply_ops(s, ops.drop_last()).flags, args),
            RegistryOp::Register(_, _) => Seq::empty(),
        }
    }
}

/// The first stop is a stop, and no argument before it is one.
pub proof fn law_first_stop_is_first(flags: Map<Seq<char>, FlagState>, args: Seq<Seq<char>>)
    ensures
        match first_stop(flags, args) {
            Some(p) => 0 <= p < args.len() && stops_at(flags, args[p]) && forall|j: int|
                0 <= j < p ==> !stops_at(flags, #[trigger] args[j]),
            None => forall|j: int| 0 <= j < args.len() ==> !stops_at(flags, #[trigger] args[j]),
        },
    decreases args.len(),
{
    if args.len() > 0 {
        let prev = args.drop_last();
        law_first_stop_is_first(flags, prev);
        match first_stop(flags, prev) {
            Some(p) => {
                assert(args[p] == prev[p]);
                assert forall|j: int| 0 <= j < p implies !stops_at(flags, #[trigger] args[j]) by {
                    assert(args[j] == prev[j]);
                }
            },
            None => {
                assert forall|j: int| 0 <= j < args.len() - 1 implies !stops_at(flags, #[trigger] args[j]) by {
                    assert(args[j] == prev[j]);
                }
            },
        }
    }
}

/// How the parser state after `args` reflects the first stop.
proof fn lemma_stop_state(flags: Map<Seq<char>, FlagState>, args: Seq<Seq<char>>)
    ensures
        ({
            let st = parse_run(initial_parse_state(flags), args);
            match first_stop(flags, args) {
                None => !st.after_separator && st.value_flag is None && st.extra == Seq::<Seq<char>>::empty(),
                Some(p) => 0 <= p < args.len() && if flags.contains_key(args[p]) {
                    !st.after_separator && st.value_flag is Some && st.extra == Seq::<Seq<char>>::empty()
                } else {
                    st.after_separator && st.extra == args.subrange(p + 1, args.len() as int)
                },
            }
        }),
    decreases args.len(),
{
    if args.len() > 0 {
        let prev = args.drop_last();
        let a = args.last();
        lemma_stop_state(flags, prev);
        lemma_run_consistent(flags, prev);
        let st0 = parse_run(initial_parse_state(flags), prev);
        assert(st0.flags.contains_key(a) == flags.contains_key(a));
        match first_stop(flags, prev) {
            Some(p) => {
                assert(args[p] == prev[p]);
                if !flags.contains_key(args[p]) {
                    assert(args.subrange(p + 1, args.len() as int) =~= prev.subrange(p + 1, prev.len() as int).push(a));
                }
            },
            None => {
                if !flags.contains_key(a) && a == separator() {
                    assert(args.subrange(args.len() as int, args.len() as int) =~= Seq::<Seq<char>>::empty());
                }
            },
        }
    }
}

/// Parsing `args` passes through exactly [`pass_through_of`] `args`.
pub proof fn law_pass_through_after_first_stop(flags: Map<Seq<char>, FlagState>, args: Seq<Seq<char>>)
    ensures
        parse_run(initial_parse_state(flags), args).extra == pass_through_of(flags, args),
{
    lemma_stop_state(flags, args);
}

/// Starting from a new registry, after any sequence of `register` and
/// `parse` calls a flag is known exactly when it was registered by one of
/// them (parsing never adds a flag), and the flag registered by the last
/// call is fresh.
pub proof fn law_known_exactly_when_registered(ops: Seq<RegistryOp>, name: Seq<char>, takes_value: bool)
    ensures
        apply_ops(empty_registry(), ops).flags.contains_key(name) <==> registered_in(ops, name),
        ops.len() > 0 && ops.last() == RegistryOp::Register(name, takes_value)
            ==> apply_ops(empty_registry(), ops).flags[name] == fresh_flag(takes_value),
    decreases ops.len(),
{
    if ops.len() > 0 {
        let prev = ops.drop_last();
        law_known_exactly_when_registered(prev, name, takes_value);
        let st = apply_ops(empty_registry(), prev);
        match ops.last() {
            RegistryOp::Register(n, tv) => {
                if n == name {
                    assert(ops[ops.len() - 1] == ops.last());
                } else {
                    if registered_in(ops, name) {
                        let i = choose|i: int| 0 <= i < ops.len() && registers(#[trigger] ops[i], name);
                        assert(i < ops.len() - 1);
                        assert(prev[i] == ops[i]);
                    }
                    if registered_in(prev, name) {
                        let i = choose|i: int| 0 <= i < prev.len() && registers(#[trigger] prev[i], name);
                        assert(ops[i] == prev[i]);
                    }
                }
            },
            RegistryOp::Parse(args) => {
                law_parse_keeps_registered_flags(st.flags, args);
                if registered_in(ops, name) {
                    let i = choose|i: int| 0 <= i < ops.len() && registers(#[trigger] ops[i], name);
                    assert(i != ops.len() - 1);
                    assert(prev[i] == ops[i]);
                }
                if registered_in(prev, name) {
                    let i = choose|i: int| 0 <= i < prev.len() && registers(#[trigger] prev[i], name);
                    assert(ops[i] == prev[i]);
                }
            },
        }
    }
}

/// Starting from a new registry, the arguments kept by the registry after
/// any sequence of calls are, call after call, those after the first stop
/// of each parsed list when that stop is an unregistered `--` (see
/// [`pass_through_of`], against the flags registered at the time).
pub proof fn law_pass_through_accumulates(ops: Seq<RegistryOp>)
    ensures
        apply_ops(empty_registry(), ops).args == passed_through(empty_registry(), ops),
    decreases ops.len(),
{
    if ops.len() > 0 {
        law_pass_through_accumulates(ops.drop_last());
        match ops.last() {
            RegistryOp::Register(_, _) => {
                assert(passed_through(empty_registry(), ops) =~= passed_through(empty_registry(), ops.drop_last()));
            },
            RegistryOp::Parse(args) => {
                law_pass_through_after_first_stop(apply_ops(empty_registry(), ops.drop_last()).flags, args);
            },
        }
    }
}

} // verus!
