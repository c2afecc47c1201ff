use vstd::prelude::*;
use crate::text::{owned, copy_string, push_char, push_str, chars_of, string_of, join_texts, joined, texts, concat_all, usize_to_text, decimal, extend_texts};
use crate::types::{Type, name_of_type};
use crate::docs::DocumentationModule;

verus! {

/// The pieces of `s` between the occurrences of `sep`, in order, as
/// `str::split` gives them (at least one piece, possibly empty ones).
pub open spec fn split_state(s: Seq<char>, sep: char) -> (Seq<Seq<char>>, Seq<char>)
    decreases s.len(),
{
    if s.len() == 0 {
        (Seq::empty(), Seq::empty())
    } else {
        let (done, cur) = split_state(s.drop_last(), sep);
        if s.last() == sep {
            (done.push(cur), Seq::empty())
        } else {
            (done, cur.push(s.last()))
        }
    }
}

pub open spec fn pieces(s: Seq<char>, sep: char) -> Seq<Seq<char>> {
    let (done, cur) = split_state(s, sep);
    done.push(cur)
}

pub(crate) fn split_pieces(s: &str, sep: char) -> (r: Vec<String>)
    ensures
        texts(r@) == pieces(s@, sep),
{
    let v = chars_of(s);
    let mut done: Vec<String> = Vec::new();
    let mut cur: Vec<char> = Vec::new();
    let mut i: usize = 0;
    while i < v.len()
        invariant
            i <= v@.len(),
            v@ == s@,
            (texts(done@), cur@) == split_state(v@.subrange(0, i as int), sep),
        decreases v@.len() - i,
    {
        proof {
            assert(v@.subrange(0, i + 1).drop_last() =~= v@.subrange(0, i as int));
        }
        if v[i] == sep {
            let ghost before = done@;
            let w = string_of(cur.as_slice());
            done.push(w);
            proof {
                assert(texts(done@) =~= texts(before).push(cur@));
            }
            cur = Vec::new();
            assert(cur@ =~= Seq::<char>::empty());
        } else {
            cur.push(v[i]);
        }
        i = i + 1;
    }
    assert(v@.subrange(0, v@.len() as int) =~= s@);
    let ghost before = done@;
    let w = string_of(cur.as_slice());
    done.push(w);
    assert(texts(done@) =~= texts(before).push(cur@));
    done
}

/// The capture groups (group 0 being the whole match) of the first match of
/// the regular expression `pattern` in `text`; `None` when there is no
/// match or when `pattern` is not a valid regular expression.
pub uninterp spec fn regex_groups(pattern: Seq<char>, text: Seq<char>) -> Option<Seq<Option<Seq<char>>>>;

pub open spec fn groups_view(g: Option<Vec<Option<String>>>) -> Option<Seq<Option<Seq<char>>>> {
    match g {
        Some(v) => Some(v@.map_values(|o: Option<String>| crate::text::opt_string_view(o))),
        None => None,
    }
}

/// `regex::Regex::new(pattern)` then `captures(text)`: the groups of the
/// first match, by index, converted to owned strings.  What they hold is
/// left to the regex crate: the contract only names the result.
#[verifier::external_body]
fn regex_captures(pattern: &str, text: &str) -> (r: Option<Vec<Option<String>>>)
    ensures
        groups_view(r) == regex_groups(pattern@, text@),
{
    let re = regex::Regex::new(pattern).ok()?;
    let caps = re.captures(text)?;
    let mut groups = Vec::new();
    for i in 0..caps.len() {
        groups.push(caps.get(i).map(|m| m.as_str().to_owned()));
    }
    Some(groups)
}

/// How a parameter is named on the command line: a positional parameter by
/// its name, an option by its short letters, its long names, and whether it
/// is the built-in `--help` option.
#[derive(Debug, PartialEq, Eq)]
pub enum ParamKind {
    Positional(String),
    Optional(Vec<char>, Vec<String>, bool),
}

pub enum ParamKindView {
    Positional(Seq<char>),
    Optional(Seq<char>, Seq<Seq<char>>, bool),
}

impl View for ParamKind {
    type V = ParamKindView;

    open spec fn view(&self) -> ParamKindView {
        match self {
            ParamKind::Positional(n) => ParamKindView::Positional(n@),
            ParamKind::Optional(s, l, h) => ParamKindView::Optional(s@, texts(l@), *h),
        }
    }
}

/// The pattern that each `|`-separated part of an option string matches:
/// a name, `-` and one letter, or `--` and a name.
pub open spec fn option_pattern() -> Seq<char> {
    "^(?:(\\w+)|-(\\w)|--(\\w+))$"@
}

/// The group `i` of a match, if it took part in it.
pub open spec fn group(g: Seq<Option<Seq<char>>>, i: int) -> Option<Seq<char>> {
    if 0 <= i < g.len() {
        g[i]
    } else {
        None
    }
}

/// Names, short letters and long names gathered from the matches of the
/// parts; `None` as soon as a part does not match.
pub open spec fn gather(matches: Seq<Option<Seq<Option<Seq<char>>>>>) -> Option<(Seq<Seq<char>>, Seq<char>, Seq<Seq<char>>)>
    decreases matches.len(),
{
    if matches.len() == 0 {
        Some((Seq::empty(), Seq::empty(), Seq::empty()))
    } else {
        match gather(matches.drop_last()) {
            None => None,
            Some((names, shorts, longs)) => match matches.last() {
                None => None,
                Some(g) => if group(g, 1) is Some {
                    Some((names.push(group(g, 1)->0), shorts, longs))
                } else if group(g, 2) is Some {
                    Some((names, shorts.push(group(g, 2)->0[0]), longs))
                } else if group(g, 3) is Some {
                    Some((names, shorts, longs.push(group(g, 3)->0)))
                } else {
                    None
                },
            },
        }
    }
}

/// The kind of parameter described by the matches of its parts: exactly one
/// name makes a positional parameter, only short and long names an option.
pub open spec fn kind_of_matches(matches: Seq<Option<Seq<Option<Seq<char>>>>>) -> Option<ParamKindView> {
    match gather(matches) {
        None => None,
        Some((names, shorts, longs)) => if names.len() == 1 && shorts.len() + longs.len() == 0 {
            Some(ParamKindView::Positional(names[0]))
        } else if names.len() == 0 && shorts.len() + longs.len() >= 1 {
            Some(ParamKindView::Optional(shorts, longs, false))
        } else {
            None
        },
    }
}

pub open spec fn kind_view(k: Option<ParamKind>) -> Option<ParamKindView> {
    match k {
        Some(k) => Some(k@),
        None => None,
    }
}

pub open spec fn matches_view(m: Seq<Option<Vec<Option<String>>>>) -> Seq<Option<Seq<Option<Seq<char>>>>> {
    m.map_values(|g: Option<Vec<Option<String>>>| groups_view(g))
}

/// A short option letter is never matched by an empty group.
pub open spec fn short_groups_nonempty(m: Seq<Option<Seq<Option<Seq<char>>>>>) -> bool {
    forall|i: int|
        0 <= i < m.len() && #[trigger] m[i] is Some && group(m[i]->0, 1) is None && group(m[i]->0, 2) is Some
            ==> group(m[i]->0, 2)->0.len() > 0
}

fn group_at(g: &Vec<Option<String>>, i: usize) -> (r: Option<String>)
    ensures
        crate::text::opt_string_view(r) == group(
            g@.map_values(|o: Option<String>| crate::text::opt_string_view(o)),
            i as int,
        ),
{
    if i < g.len() {
        match &g[i] {
            Some(s) => Some(copy_string(s)),
            None => None,
        }
    } else {
        None
    }
}

/// The parameter kind an option string describes (see [`ParamKind::from`]).
pub open spec fn option_kind(option: Seq<char>) -> Option<ParamKindView> {
    let m = pieces(option, '|').map_values(|t: Seq<char>| regex_groups(option_pattern(), t));
    if short_groups_nonempty(m) {
        kind_of_matches(m)
    } else {
        None
    }
}

impl ParamKind {
    /// The parameter kind described by the regex matches of the parts of an
    /// option string (as [`ParamKind::from`] computes them).
    pub fn from_matches(matches: Vec<Option<Vec<Option<String>>>>) -> (r: Option<ParamKind>)
        requires
            short_groups_nonempty(matches_view(matches@)),
        ensures
            kind_view(r) == kind_of_matches(matches_view(matches@)),
    {
        let ghost mv = matches_view(matches@);
        let mut names: Vec<String> = Vec::new();
        let mut shorts: Vec<char> = Vec::new();
        let mut longs: Vec<String> = Vec::new();
        let mut i: usize = 0;
        while i < matches.len()
            invariant
                i <= matches@.len(),
                mv == matches_view(matches@),
                short_groups_nonempty(mv),
                gather(mv.take(i as int)) == Some((texts(names@), shorts@, texts(longs@))),
            decreases matches@.len() - i,
        {
            proof {
                assert(mv.take(i + 1).drop_last() =~= mv.take(i as int));
                assert(mv.take(i + 1).last() == mv[i as int]);
            }
            match &matches[i] {
                None => {
                    proof {
                        assert(gather(mv.take(i + 1)) is None);
                        assert(mv.take(i + 1) + mv.skip(i + 1) =~= mv);
                        lemma_gather_none_extends(mv.take(i + 1), mv.skip(i + 1));
                    }
                    return None;
                },
                Some(g) => {
                    let g1 = group_at(g, 1);
                    let g2 = group_at(g, 2);
                    let g3 = group_at(g, 3);
                    if let Some(name) = g1 {
                        let ghost before = names@;
                        names.push(name);
                        assert(texts(names@) =~= texts(before).push(name@));
                    } else if let Some(short) = g2 {
                        let cs = chars_of(short.as_str());
                        assert(mv[i as int] is Some);
                        shorts.push(cs[0]);
                    } else if let Some(long) = g3 {
                        let ghost before = longs@;
                        longs.push(long);
                        assert(texts(longs@) =~= texts(before).push(long@));
                    } else {
                        proof {
                            assert(gather(mv.take(i + 1)) is None);
                            assert(mv.take(i + 1) + mv.skip(i + 1) =~= mv);
                            lemma_gather_none_extends(mv.take(i + 1), mv.skip(i + 1));
                        }
                        return None;
                    }
                },
            }
            i = i + 1;
        }
        proof {
            assert(mv.take(matches@.len() as int) =~= mv);
        }
        if names.len() == 1 && shorts.len() == 0 && longs.len() == 0 {
            let name = copy_string(&names[0]);
            Some(ParamKind::Positional(name))
        } else if names.len() == 0 && (shorts.len() > 0 || longs.len() > 0) {
            Some(ParamKind::Optional(shorts, longs, false))
        } else {
            None
        }
    }

    /// The parameter kind described by an option string such as `name`,
    /// `-v|--verbose` or `--output`: the parts between `|` are matched
    /// against [`option_pattern`].
    pub fn from(option: &str) -> (r: Option<ParamKind>)
        ensures
            kind_view(r) == option_kind(option@),
    {
        let parts = split_pieces(option, '|');
        let ghost ps = pieces(option@, '|');
        let mut matches: Vec<Option<Vec<Option<String>>>> = Vec::new();
        let mut i: usize = 0;
        while i < parts.len()
            invariant
                i <= parts@.len(),
                texts(parts@) == ps,
                matches_view(matches@) == ps.take(i as int).map_values(|t: Seq<char>| regex_groups(option_pattern(), t)),
            decreases parts@.len() - i,
        {
            let ghost before = matches@;
            let m = regex_captures("^(?:(\\w+)|-(\\w)|--(\\w+))$", parts[i].as_str());
            matches.push(m);
            proof {
                assert(ps[i as int] == parts@[i as int]@);
                assert(matches_view(matches@) =~= matches_view(before).push(groups_view(m)));
                assert(ps.take(i + 1) =~= ps.take(i as int).push(ps[i as int]));
                assert(ps.take(i + 1).map_values(|t: Seq<char>| regex_groups(option_pattern(), t)) =~=
                    ps.take(i as int).map_values(|t: Seq<char>| regex_groups(option_pattern(), t)).push(regex_groups(option_pattern(), ps[i as int])));
            }
            i = i + 1;
        }
        proof {
            assert(ps.take(parts@.len() as int) =~= ps);
        }
        if short_groups_hold(&matches) {
            Self::from_matches(matches)
        } else {
            None
        }
    }
}

proof fn lemma_gather_none_extends(a: Seq<Option<Seq<Option<Seq<char>>>>>, b: Seq<Option<Seq<Option<Seq<char>>>>>)
    requires
        gather(a) is None,
    ensures
        gather(a + b) is None,
    decreases b.len(),
{
    if b.len() == 0 {
        assert(a + b =~= a);
    } else {
        lemma_gather_none_extends(a, b.drop_last());
        assert((a + b).drop_last() =~= a + b.drop_last());
    }
}

fn short_groups_hold(matches: &Vec<Option<Vec<Option<String>>>>) -> (r: bool)
    ensures
        r == short_groups_nonempty(matches_view(matches@)),
{
    let ghost mv = matches_view(matches@);
    let mut i: usize = 0;
    while i < matches.len()
        invariant
            i <= matches@.len(),
            mv == matches_view(matches@),
            forall|k: int|
                0 <= k < i && #[trigger] mv[k] is Some && group(mv[k]->0, 1) is None && group(mv[k]->0, 2) is Some
                    ==> group(mv[k]->0, 2)->0.len() > 0,
        decreases matches@.len() - i,
    {
        if let Some(g) = &matches[i] {
            let g1 = group_at(g, 1);
            let g2 = group_at(g, 2);
            if g1.is_none() {
                if let Some(short) = g2 {
                    if short.as_str().unicode_len() == 0 {
                        assert(mv[i as int] is Some);
                        return false;
                    }
                }
            }
        }
        i = i + 1;
    }
    true
}

/// The text of a positional parameter's name in upper case
/// (`str::to_uppercase`, full Unicode case mapping).
pub uninterp spec fn upper_case(s: Seq<char>) -> Seq<char>;

/// `str::to_uppercase`: the Unicode upper case form of `s`.
#[verifier::external_body]
fn to_upper(s: &str) -> (r: String)
    ensures
        r@ == upper_case(s@),
{
    s.to_uppercase()
}

/// What the parser needs to know of a parameter's default value: its type
/// and, when it is an integer or boolean literal, its integer value.
#[derive(Debug, PartialEq, Eq)]
pub struct ParamDefault {
    pub kind: Type,
    pub int_value: Option<isize>,
}

/// A command line parameter declared with `param(...)`.
pub struct ParamImpl {
    /// The shell variable that receives the value.
    pub name: String,
    pub kind: ParamKind,
    pub default: ParamDefault,
    pub help: String,
}

/// The mathematical content of a [`ParamImpl`].
pub struct ParamView {
    pub name: Seq<char>,
    pub kind: ParamKindView,
    pub default_kind: Type,
    pub default_int: Option<isize>,
    pub help: Seq<char>,
}

impl View for ParamImpl {
    type V = ParamView;

    open spec fn view(&self) -> ParamView {
        ParamView {
            name: self.name@,
            kind: self.kind@,
            default_kind: self.default.kind,
            default_int: self.default.int_value,
            help: self.help@,
        }
    }
}

/// `-s` for each short letter, then `--long` for each long name, joined by
/// `|`.
pub open spec fn optional_text(shorts: Seq<char>, longs: Seq<Seq<char>>) -> Seq<char> {
    joined(
        shorts.map_values(|c: char| "-"@ + seq![c]) + longs.map_values(|l: Seq<char>| "--"@ + l),
        "|"@,
    )
}

/// An option description followed by its default's type, unless that is
/// `Null`.
pub open spec fn with_type(option: Seq<char>, t: Type) -> Seq<char> {
    if t is Null {
        option
    } else {
        option + ": "@ + name_of_type(t)
    }
}

/// The first column of a parameter's line in the help text.
pub open spec fn option_text(p: ParamView) -> Seq<char> {
    with_type(
        match p.kind {
            ParamKindView::Positional(n) => upper_case(n),
            ParamKindView::Optional(sh, lo, _) => optional_text(sh, lo),
        },
        p.default_kind,
    )
}

/// The value stored for a boolean option when it is given: the opposite of
/// its default.
pub open spec fn inverted_default(p: ParamView) -> isize {
    if (match p.default_int {
        Some(v) => v,
        None => 0,
    }) == 0 {
        1
    } else {
        0
    }
}

/// The built-in `--help` option.
pub open spec fn help_param() -> ParamView {
    ParamView {
        name: Seq::empty(),
        kind: ParamKindView::Optional(Seq::empty(), seq!["help"@], true),
        default_kind: Type::Null,
        default_int: None,
        help: "Show help text"@,
    }
}

impl ParamImpl {
    /// A parameter whose shell variable is not named yet.
    pub fn new(kind: ParamKind, default: ParamDefault, help: String) -> (r: Self)
        ensures
            r@.name == Seq::<char>::empty(),
            r@.kind == kind@,
            r.default == default,
            r@.help == help@,
    {
        ParamImpl { name: String::new(), kind, default, help }
    }

    /// The built-in `--help` option.
    pub fn help() -> (r: Self)
        ensures
            r@.name == Seq::<char>::empty(),
            r@.kind == ParamKindView::Optional(Seq::empty(), seq!["help"@], true),
            r.default.kind is Null,
            r.default.int_value is None,
            r@.help == "Show help text"@,
            r@ == help_param(),
    {
        let mut longs: Vec<String> = Vec::new();
        longs.push(owned("help"));
        assert(texts(longs@) =~= seq!["help"@]);
        let shorts: Vec<char> = Vec::new();
        assert(shorts@ =~= Seq::<char>::empty());
        let kind = ParamKind::Optional(shorts, longs, true);
        let default = ParamDefault { kind: Type::Null, int_value: None };
        Self::new(kind, default, owned("Show help text"))
    }

    /// Names the shell variable: `__{id}_{name}` for a global variable, the
    /// plain name otherwise.
    pub fn set_var_name(&mut self, name: &str, id: Option<usize>)
        ensures
            final(self)@.name == (match id {
                Some(id) => "__"@ + decimal(id as nat) + "_"@ + name@,
                None => name@,
            }),
            final(self)@.kind == old(self)@.kind,
            final(self).default == old(self).default,
            final(self)@.help == old(self)@.help,
    {
        self.name = match id {
            Some(id) => {
                let mut r = owned("__");
                let digits = usize_to_text(id);
                push_str(&mut r, digits.as_str());
                push_str(&mut r, "_");
                push_str(&mut r, name);
                r
            },
            None => owned(name),
        };
    }

    /// The option's spellings in help text: `-s|--long`.
    pub fn describe_optional(shorts: &Vec<char>, longs: &Vec<String>) -> (r: String)
        ensures
            r@ == optional_text(shorts@, texts(longs@)),
    {
        let mut parts: Vec<String> = Vec::new();
        let mut i: usize = 0;
        while i < shorts.len()
            invariant
                i <= shorts@.len(),
                texts(parts@) == shorts@.take(i as int).map_values(|c: char| "-"@ + seq![c]),
            decreases shorts@.len() - i,
        {
            let mut p = owned("-");
            push_char(&mut p, shorts[i]);
            let ghost before = parts@;
            parts.push(p);
            proof {
                assert(p@ =~= "-"@ + seq![shorts@[i as int]]);
                assert(texts(parts@) =~= texts(before).push(p@));
                assert(shorts@.take(i + 1) =~= shorts@.take(i as int).push(shorts@[i as int]));
                assert(shorts@.take(i + 1).map_values(|c: char| "-"@ + seq![c]) =~= shorts@.take(i as int).map_values(|c: char| "-"@ + seq![c]).push("-"@ + seq![shorts@[i as int]]));
            }
            i = i + 1;
        }
        let ghost short_parts = texts(parts@);
        assert(shorts@.take(shorts@.len() as int) =~= shorts@);
        let mut j: usize = 0;
        while j < longs.len()
            invariant
                j <= longs@.len(),
                texts(parts@) == short_parts + texts(longs@).take(j as int).map_values(|l: Seq<char>| "--"@ + l),
            decreases longs@.len() - j,
        {
            let mut p = owned("--");
            push_str(&mut p, longs[j].as_str());
            let ghost before = parts@;
            parts.push(p);
            proof {
                let tl = texts(longs@);
                assert(texts(parts@) =~= texts(before).push(p@));
                assert(tl.take(j + 1) =~= tl.take(j as int).push(tl[j as int]));
                assert(tl.take(j + 1).map_values(|l: Seq<char>| "--"@ + l) =~= tl.take(j as int).map_values(|l: Seq<char>| "--"@ + l).push("--"@ + tl[j as int]));
            }
            j = j + 1;
        }
        assert(texts(longs@).take(longs@.len() as int) =~= texts(longs@));
        join_texts(&parts, "|")
    }

    /// Appends `: Type` to an option description unless the type is `Null`.
    pub fn with_default_type(option: String, default: &Type) -> (r: String)
        ensures
            r@ == with_type(option@, *default),
    {
        if default.is_null() {
            option
        } else {
            let mut r = option;
            push_str(&mut r, ": ");
            let name = default.to_text();
            push_str(&mut r, name.as_str());
            r
        }
    }

    /// The two columns of this parameter's line in the help text.
    pub fn describe_help(&self) -> (r: (String, String))
        ensures
            r.0@ == option_text(self@),
            r.1@ == self@.help,
    {
        let option = match &self.kind {
            ParamKind::Positional(name) => to_upper(name.as_str()),
            ParamKind::Optional(shorts, longs, _) => Self::describe_optional(shorts, longs),
        };
        (Self::with_default_type(option, &self.default.kind), copy_string(&self.help))
    }

    /// The value a boolean option takes when given: 1 when its default is 0
    /// (or not an integer literal), else 0.
    pub fn invert_default_bool(&self) -> (r: isize)
        ensures
            r == inverted_default(self@),
    {
        let value = match self.default.int_value {
            Some(v) => v,
            None => 0,
        };
        if value == 0 {
            1
        } else {
            0
        }
    }
}

/// The byte length of a text in UTF-8, as `str::len` gives it.
pub open spec fn byte_len(s: Seq<char>) -> usize {
    vstd::utf8::encode_utf8(s).len() as usize
}

fn text_byte_len(s: &String) -> (r: usize)
    ensures
        r == byte_len(s@),
{
    s.as_str().len()
}

/// `:` after an option that takes an argument (neither `Bool` nor `Null`).
pub open spec fn colon_of(t: Type) -> Seq<char> {
    if t is Bool || t is Null {
        ""@
    } else {
        ":"@
    }
}

/// The `getopt` short option items of a parameter.
pub open spec fn short_items(p: ParamView) -> Seq<Seq<char>> {
    match p.kind {
        ParamKindView::Optional(sh, _, _) => sh.map_values(|c: char| seq![c] + colon_of(p.default_kind)),
        _ => Seq::empty(),
    }
}

/// The `getopt` long option items of a parameter.
pub open spec fn long_items(p: ParamView) -> Seq<Seq<char>> {
    match p.kind {
        ParamKindView::Optional(_, lo, _) => lo.map_values(|l: Seq<char>| l + colon_of(p.default_kind)),
        _ => Seq::empty(),
    }
}

/// The `getopt` command that normalises the arguments `args`.
pub open spec fn getopt_command(ps: Seq<ParamView>, args: Seq<char>) -> Seq<char> {
    "getopt --options="@ + joined(concat_all(ps.map_values(|p: ParamView| short_items(p))), ""@)
        + " --longoptions="@ + joined(concat_all(ps.map_values(|p: ParamView| long_items(p))), ","@)
        + " -- "@ + args
}

/// The lines that store a given option's value.
pub open spec fn value_lines(p: ParamView, ind: Seq<char>) -> Seq<Seq<char>> {
    let ii = ind + ind;
    if p.default_kind is Null {
        seq![ii + p.name + "=1"@, ii + "shift"@]
    } else if p.default_kind is Bool {
        seq![ii + p.name + "="@ + (if inverted_default(p) == 1 { "1"@ } else { "0"@ }), ii + "shift"@]
    } else if p.default_kind is Array {
        seq![ii + p.name + "+=(\"$2\")"@, ii + "shift"@, ii + "shift"@]
    } else {
        seq![ii + p.name + "=\"$2\""@, ii + "shift"@, ii + "shift"@]
    }
}

/// The widest first column of the help text, in bytes.
pub open spec fn help_width(ps: Seq<ParamView>) -> usize
    decreases ps.len(),
{
    if ps.len() == 0 {
        0
    } else {
        let w = help_width(ps.drop_last());
        let l = byte_len(option_text(ps.last()));
        if l > w {
            l
        } else {
            w
        }
    }
}

/// `n` dots.
pub open spec fn dots(n: nat) -> Seq<char> {
    Seq::new(n, |i: int| '.')
}

/// One parameter's line of the help text: its description padded with dots
/// to the common width, then its help.
pub open spec fn help_entry(option: Seq<char>, help: Seq<char>, width: usize) -> Seq<char> {
    "  "@ + option + " "@ + dots((width - byte_len(option) + 3) as nat) + " "@ + help
}

/// The lines of the `--help` case: a here-document with the about text, the
/// syntax line and one line per parameter, then `exit 1`.
pub open spec fn help_lines(about: Seq<char>, ps: Seq<ParamView>, ind: Seq<char>, run_name: Seq<char>) -> Seq<Seq<char>> {
    seq![ind + ind + "cat <<EOF"@, about, "Syntax: "@ + run_name + " [options]"@]
        + ps.map_values(|p: ParamView| help_entry(option_text(p), p.help, help_width(ps)))
        + seq!["EOF"@, ind + ind + "exit 1"@]
}

/// The `case` branch of an option.
pub open spec fn optional_lines(about: Seq<char>, ps: Seq<ParamView>, p: ParamView, ind: Seq<char>, run_name: Seq<char>) -> Seq<Seq<char>> {
    match p.kind {
        ParamKindView::Optional(sh, lo, is_help) => seq![ind + optional_text(sh, lo) + ")"@] + (if is_help {
            help_lines(about, ps, ind, run_name)
        } else {
            value_lines(p, ind)
        }) + seq![ind + ind + ";;"@],
        _ => Seq::empty(),
    }
}

/// The lines that take a positional parameter's value.
pub open spec fn positional_lines(p: ParamView) -> Seq<Seq<char>> {
    match p.kind {
        ParamKindView::Positional(_) => if p.default_kind is Array {
            seq!["[ -n \"$1\" ] && "@ + p.name + "=(\"$@\")"@, "set --"@]
        } else {
            seq!["[ -n \"$1\" ] && "@ + p.name + "=\"$1\""@, "shift"@]
        },
        _ => Seq::empty(),
    }
}

/// The name of the running script, from the array holding the arguments.
pub open spec fn run_name_text(args_name: Seq<char>) -> Seq<char> {
    "$(basename ${"@ + args_name + "[0]})"@
}

/// The lines of the shell code that parses the command line.
pub open spec fn getopt_script(about: Seq<char>, ps: Seq<ParamView>, args: Seq<char>, args_name: Seq<char>, ind: Seq<char>) -> Seq<Seq<char>> {
    seq!["getopt=$("@ + getopt_command(ps, args) + ") || exit"@, "eval set -- $getopt"@, "while true; do"@, ind + "case \"$1\" in"@]
        + concat_all(ps.map_values(|p: ParamView| optional_lines(about, ps, p, ind, run_name_text(args_name))))
        + seq![
            ind + "--)"@,
            ind + ind + "shift"@,
            ind + ind + "break"@,
            ind + ind + ";;"@,
            ind + "*)"@,
            ind + ind + "exit 1"@,
            ind + ind + ";;"@,
            ind + "esac"@,
            "done"@,
            "shift"@,
        ] + concat_all(ps.map_values(|p: ParamView| positional_lines(p)))
}

/// The parameters of a parser.
pub open spec fn params_view(v: Seq<ParamImpl>) -> Seq<ParamView> {
    v.map_values(|p: ParamImpl| p@)
}

/// A command line parser declared with `parser(about)`, and its parameters.
pub struct ParserImpl {
    about: String,
    params: Vec<ParamImpl>,
}

/// The mathematical content of a [`ParserImpl`].
pub struct ParserView {
    pub about: Seq<char>,
    pub params: Seq<ParamView>,
}

impl View for ParserImpl {
    type V = ParserView;

    closed spec fn view(&self) -> ParserView {
        ParserView { about: self.about@, params: params_view(self.params@) }
    }
}

fn line(parts: &[&str]) -> (r: String)
    ensures
        r@ == concat_all(parts@.map_values(|s: &str| s@)),
{
    let mut r = String::new();
    let mut i: usize = 0;
    while i < parts.len()
        invariant
            i <= parts@.len(),
            r@ == concat_all(parts@.take(i as int).map_values(|s: &str| s@)),
        decreases parts@.len() - i,
    {
        push_str(&mut r, parts[i]);
        proof {
            assert(parts@.take(i + 1).map_values(|s: &str| s@).drop_last() =~= parts@.take(i as int).map_values(|s: &str| s@));
        }
        i = i + 1;
    }
    assert(parts@.take(parts@.len() as int) =~= parts@);
    r
}

fn push_line(output: &mut Vec<String>, l: String)
    ensures
        texts(final(output)@) == texts(old(output)@).push(l@),
{
    let ghost before = output@;
    output.push(l);
    assert(texts(output@) =~= texts(before).push(l@));
}

proof fn lemma_concat_all_push<A>(s: Seq<Seq<A>>, x: Seq<A>)
    ensures
        concat_all(s.push(x)) == concat_all(s) + x,
{
    assert(s.push(x).drop_last() =~= s);
}

proof fn lemma_help_width_bound(ps: Seq<ParamView>, i: int)
    requires
        0 <= i < ps.len(),
    ensures
        byte_len(option_text(ps[i])) <= help_width(ps),
    decreases ps.len(),
{
    if i < ps.len() - 1 {
        lemma_help_width_bound(ps.drop_last(), i);
    }
}

impl ParserImpl {
    /// A parser with its about text and no parameters yet.
    pub fn new(about: String) -> (r: Self)
        ensures
            r@.about == about@,
            r@.params == Seq::<ParamView>::empty(),
    {
        let r = ParserImpl { about, params: Vec::new() };
        assert(params_view(r.params@) =~= Seq::<ParamView>::empty());
        r
    }

    pub fn add_param(&mut self, param: ParamImpl)
        ensures
            final(self)@.about == old(self)@.about,
            final(self)@.params == old(self)@.params.push(param@),
    {
        let ghost before = self.params@;
        self.params.push(param);
        assert(params_view(self.params@) =~= params_view(before).push(param@));
    }

    /// The `getopt` command for this parser's options, applied to `args`.
    fn create_getopt(&self, args: &str) -> (r: String)
        ensures
            r@ == getopt_command(self@.params, args@),
    {
        let ghost ps = self@.params;
        let mut all_shorts: Vec<String> = Vec::new();
        let mut all_longs: Vec<String> = Vec::new();
        let mut i: usize = 0;
        while i < self.params.len()
            invariant
                i <= self.params@.len(),
                ps == params_view(self.params@),
                texts(all_shorts@) == concat_all(ps.take(i as int).map_values(|p: ParamView| short_items(p))),
                texts(all_longs@) == concat_all(ps.take(i as int).map_values(|p: ParamView| long_items(p))),
            decreases self.params@.len() - i,
        {
            let param = &self.params[i];
            let ghost pv = param@;
            let ghost s0 = texts(all_shorts@);
            let ghost l0 = texts(all_longs@);
            proof {
                assert(ps[i as int] == pv);
                assert(ps.take(i + 1) =~= ps.take(i as int).push(pv));
                assert(ps.take(i + 1).map_values(|p: ParamView| short_items(p)) =~= ps.take(i as int).map_values(|p: ParamView| short_items(p)).push(short_items(pv)));
                assert(ps.take(i + 1).map_values(|p: ParamView| long_items(p)) =~= ps.take(i as int).map_values(|p: ParamView| long_items(p)).push(long_items(pv)));
                lemma_concat_all_push(ps.take(i as int).map_values(|p: ParamView| short_items(p)), short_items(pv));
                lemma_concat_all_push(ps.take(i as int).map_values(|p: ParamView| long_items(p)), long_items(pv));
            }
            if let ParamKind::Optional(shorts, longs, _) = &param.kind {
                let colon = if param.default.kind.is_bool() || param.default.kind.is_null() {
                    ""
                } else {
                    ":"
                };
                let ghost c = colon_of(pv.default_kind);
                assert(colon@ == c);
                let mut j: usize = 0;
                while j < shorts.len()
                    invariant
                        j <= shorts@.len(),
                        colon@ == c,
                        texts(all_shorts@) == s0 + shorts@.take(j as int).map_values(|ch: char| seq![ch] + c),
                    decreases shorts@.len() - j,
                {
                    let mut item = String::new();
                    push_char(&mut item, shorts[j]);
                    push_str(&mut item, colon);
                    push_line(&mut all_shorts, item);
                    proof {
                        assert(item@ =~= seq![shorts@[j as int]] + c);
                        assert(shorts@.take(j + 1).map_values(|ch: char| seq![ch] + c) =~= shorts@.take(j as int).map_values(|ch: char| seq![ch] + c).push(seq![shorts@[j as int]] + c));
                    }
                    j = j + 1;
                }
                assert(shorts@.take(shorts@.len() as int) =~= shorts@);
                let mut k: usize = 0;
                while k < longs.len()
                    invariant
                        k <= longs@.len(),
                        colon@ == c,
                        texts(all_longs@) == l0 + texts(longs@).take(k as int).map_values(|l: Seq<char>| l + c),
                    decreases longs@.len() - k,
                {
                    let mut item = copy_string(&longs[k]);
                    push_str(&mut item, colon);
                    push_line(&mut all_longs, item);
                    proof {
                        let tl = texts(longs@);
                        assert(tl.take(k + 1).map_values(|l: Seq<char>| l + c) =~= tl.take(k as int).map_values(|l: Seq<char>| l + c).push(tl[k as int] + c));
                    }
                    k = k + 1;
                }
                assert(texts(longs@).take(longs@.len() as int) =~= texts(longs@));
                proof {
                    assert(texts(all_shorts@) =~= s0 + short_items(pv));
                    assert(texts(all_longs@) =~= l0 + long_items(pv));
                }
            } else {
                proof {
                    assert(s0 + short_items(pv) =~= s0);
                    assert(l0 + long_items(pv) =~= l0);
                }
            }
            i = i + 1;
        }
        proof {
            assert(ps.take(self.params@.len() as int) =~= ps);
        }
        let shorts = join_texts(&all_shorts, "");
        let longs = join_texts(&all_longs, ",");
        let mut r = owned("getopt --options=");
        push_str(&mut r, shorts.as_str());
        push_str(&mut r, " --longoptions=");
        push_str(&mut r, longs.as_str());
        push_str(&mut r, " -- ");
        push_str(&mut r, args);
        r
    }
}

impl ParserImpl {
    /// The script's name, taken from element 0 of the arguments array.
    pub fn create_run_name(args_name: Option<&str>) -> (r: String)
        ensures
            r@ == run_name_text(match args_name {
                Some(n) => n@,
                None => ""@,
            }),
    {
        let name = match args_name {
            Some(n) => n,
            None => "",
        };
        let mut r = owned("$(basename ${");
        push_str(&mut r, name);
        push_str(&mut r, "[0]})");
        r
    }

    /// Appends the lines of the `--help` branch.
    fn append_help(&self, output: &mut Vec<String>, indent: &str, run_name: &str)
        ensures
            texts(final(output)@) == texts(old(output)@) + help_lines(self@.about, self@.params, indent@, run_name@),
    {
        let ghost ps = self@.params;
        let mut described: Vec<(String, String)> = Vec::new();
        let mut width: usize = 0;
        let mut i: usize = 0;
        while i < self.params.len()
            invariant
                i <= self.params@.len(),
                ps == params_view(self.params@),
                described@.len() == i,
                forall|k: int| 0 <= k < i ==> #[trigger] described@[k].0@ == option_text(ps[k]) && described@[k].1@ == ps[k].help,
                width == help_width(ps.take(i as int)),
            decreases self.params@.len() - i,
        {
            let d = self.params[i].describe_help();
            let len = text_byte_len(&d.0);
            proof {
                assert(ps.take(i + 1).drop_last() =~= ps.take(i as int));
                assert(ps.take(i + 1).last() == ps[i as int]);
            }
            if len > width {
                width = len;
            }
            described.push(d);
            i = i + 1;
        }
        assert(ps.take(self.params@.len() as int) =~= ps);
        let ghost before = texts(output@);
        let mut first = owned(indent);
        push_str(&mut first, indent);
        push_str(&mut first, "cat <<EOF");
        push_line(output, first);
        push_line(output, copy_string(&self.about));
        let mut syntax = owned("Syntax: ");
        push_str(&mut syntax, run_name);
        push_str(&mut syntax, " [options]");
        push_line(output, syntax);
        let ghost head = texts(output@);
        let mut j: usize = 0;
        while j < described.len()
            invariant
                j <= described@.len(),
                described@.len() == ps.len(),
                width == help_width(ps),
                forall|k: int| 0 <= k < described@.len() ==> #[trigger] described@[k].0@ == option_text(ps[k]) && described@[k].1@ == ps[k].help,
                texts(output@) == head + ps.take(j as int).map_values(|p: ParamView| help_entry(option_text(p), p.help, help_width(ps))),
            decreases described@.len() - j,
        {
            let option = &described[j].0;
            let help = &described[j].1;
            let len = text_byte_len(option);
            proof {
                lemma_help_width_bound(ps, j as int);
            }
            let mut entry = owned("  ");
            push_str(&mut entry, option.as_str());
            push_str(&mut entry, " ");
            let ghost start = entry@;
            let mut d: usize = 0;
            while d < width - len
                invariant
                    len <= width,
                    d <= width - len,
                    entry@ == start + dots(d as nat),
                decreases width - len - d,
            {
                push_char(&mut entry, '.');
                d = d + 1;
                assert(entry@ =~= start + dots(d as nat));
            }
            push_str(&mut entry, "...");
            push_str(&mut entry, " ");
            push_str(&mut entry, help.as_str());
            proof {
                reveal_strlit("...");
                assert(dots((width - len) as nat) + "..."@ =~= dots((width - len + 3) as nat));
                assert(entry@ =~= help_entry(option_text(ps[j as int]), ps[j as int].help, help_width(ps)));
            }
            push_line(output, entry);
            proof {
                assert(ps.take(j + 1) =~= ps.take(j as int).push(ps[j as int]));
                assert(ps.take(j + 1).map_values(|p: ParamView| help_entry(option_text(p), p.help, help_width(ps))) =~= ps.take(j as int).map_values(|p: ParamView| help_entry(option_text(p), p.help, help_width(ps))).push(help_entry(option_text(ps[j as int]), ps[j as int].help, help_width(ps))));
            }
            j = j + 1;
        }
        assert(ps.take(ps.len() as int) =~= ps);
        push_line(output, owned("EOF"));
        let mut last = owned(indent);
        push_str(&mut last, indent);
        push_str(&mut last, "exit 1");
        push_line(output, last);
        assert(texts(output@) =~= before + help_lines(self@.about, ps, indent@, run_name@));
    }

    /// Appends the `case` branch of `param` if it is an option.
    fn append_optional(&self, output: &mut Vec<String>, indent: &str, run_name: &str, param: &ParamImpl)
        ensures
            texts(final(output)@) == texts(old(output)@) + optional_lines(self@.about, self@.params, param@, indent@, run_name@),
    {
        let ghost before = texts(output@);
        if let ParamKind::Optional(shorts, longs, help) = &param.kind {
            let option = ParamImpl::describe_optional(shorts, longs);
            let mut head = owned(indent);
            push_str(&mut head, option.as_str());
            push_str(&mut head, ")");
            push_line(output, head);
            let ghost mid = texts(output@);
            if *help {
                self.append_help(output, indent, run_name);
            } else {
                let mut ii = owned(indent);
                push_str(&mut ii, indent);
                let name = param.name.as_str();
                if param.default.kind.is_null() {
                    let mut a = copy_string(&ii);
                    push_str(&mut a, name);
                    push_str(&mut a, "=1");
                    push_line(output, a);
                    let mut b = copy_string(&ii);
                    push_str(&mut b, "shift");
                    push_line(output, b);
                } else if param.default.kind.is_bool() {
                    let value = param.invert_default_bool();
                    let mut a = copy_string(&ii);
                    push_str(&mut a, name);
                    push_str(&mut a, "=");
                    push_str(&mut a, if value == 1 { "1" } else { "0" });
                    push_line(output, a);
                    let mut b = copy_string(&ii);
                    push_str(&mut b, "shift");
                    push_line(output, b);
                } else if param.default.kind.is_array() {
                    let mut a = copy_string(&ii);
                    push_str(&mut a, name);
                    push_str(&mut a, "+=(\"$2\")");
                    push_line(output, a);
                    let mut b = copy_string(&ii);
                    push_str(&mut b, "shift");
                    push_line(output, b);
                    let mut c = copy_string(&ii);
                    push_str(&mut c, "shift");
                    push_line(output, c);
                } else {
                    let mut a = copy_string(&ii);
                    push_str(&mut a, name);
                    push_str(&mut a, "=\"$2\"");
                    push_line(output, a);
                    let mut b = copy_string(&ii);
                    push_str(&mut b, "shift");
                    push_line(output, b);
                    let mut c = copy_string(&ii);
                    push_str(&mut c, "shift");
                    push_line(output, c);
                }
                assert(texts(output@) =~= mid + value_lines(param@, indent@));
            }
            let mut end = owned(indent);
            push_str(&mut end, indent);
            push_str(&mut end, ";;");
            push_line(output, end);
            assert(texts(output@) =~= before + optional_lines(self@.about, self@.params, param@, indent@, run_name@));
        } else {
            assert(texts(output@) =~= before + optional_lines(self@.about, self@.params, param@, indent@, run_name@));
        }
    }

    /// Appends the lines that take `param`'s value if it is positional.
    fn append_positional(&self, output: &mut Vec<String>, param: &ParamImpl)
        ensures
            texts(final(output)@) == texts(old(output)@) + positional_lines(param@),
    {
        let ghost before = texts(output@);
        if let ParamKind::Positional(_) = &param.kind {
            let name = param.name.as_str();
            if param.default.kind.is_array() {
                let mut a = owned("[ -n \"$1\" ] && ");
                push_str(&mut a, name);
                push_str(&mut a, "=(\"$@\")");
                push_line(output, a);
                push_line(output, owned("set --"));
            } else {
                let mut a = owned("[ -n \"$1\" ] && ");
                push_str(&mut a, name);
                push_str(&mut a, "=\"$1\"");
                push_line(output, a);
                push_line(output, owned("shift"));
            }
        }
        assert(texts(output@) =~= before + positional_lines(param@));
    }

    /// The shell code that parses the command line held in `args` (an
    /// array named `args_name`) into the parameters' variables, with
    /// `indent` as one level of indentation.
    pub fn translate(&self, args: &str, args_name: Option<&str>, indent: &str) -> (r: String)
        ensures
            r@ == joined(getopt_script(self@.about, self@.params, args@, match args_name {
                Some(n) => n@,
                None => ""@,
            }, indent@), "\n"@),
    {
        let ghost ps = self@.params;
        let ghost an = match args_name {
            Some(n) => n@,
            None => ""@,
        };
        let mut output: Vec<String> = Vec::new();
        let getopt = self.create_getopt(args);
        let mut l0 = owned("getopt=$(");
        push_str(&mut l0, getopt.as_str());
        push_str(&mut l0, ") || exit");
        push_line(&mut output, l0);
        push_line(&mut output, owned("eval set -- $getopt"));
        push_line(&mut output, owned("while true; do"));
        let mut l3 = owned(indent);
        push_str(&mut l3, "case \"$1\" in");
        push_line(&mut output, l3);
        let run_name = Self::create_run_name(args_name);
        let ghost head = texts(output@);
        let mut i: usize = 0;
        while i < self.params.len()
            invariant
                i <= self.params@.len(),
                ps == self@.params,
                ps == params_view(self.params@),
                run_name@ == run_name_text(an),
                texts(output@) == head + concat_all(ps.take(i as int).map_values(|p: ParamView| optional_lines(self@.about, ps, p, indent@, run_name_text(an)))),
            decreases self.params@.len() - i,
        {
            self.append_optional(&mut output, indent, run_name.as_str(), &self.params[i]);
            proof {
                let f = |p: ParamView| optional_lines(self@.about, ps, p, indent@, run_name_text(an));
                assert(ps.take(i + 1) =~= ps.take(i as int).push(ps[i as int]));
                assert(ps.take(i + 1).map_values(f) =~= ps.take(i as int).map_values(f).push(f(ps[i as int])));
                lemma_concat_all_push(ps.take(i as int).map_values(f), f(ps[i as int]));
            }
            i = i + 1;
        }
        assert(ps.take(ps.len() as int) =~= ps);
        let ghost mid = texts(output@);
        let mut ii = owned(indent);
        push_str(&mut ii, indent);
        let mut a = owned(indent);
        push_str(&mut a, "--)");
        push_line(&mut output, a);
        let mut b = copy_string(&ii);
        push_str(&mut b, "shift");
        push_line(&mut output, b);
        let mut c = copy_string(&ii);
        push_str(&mut c, "break");
        push_line(&mut output, c);
        let mut d = copy_string(&ii);
        push_str(&mut d, ";;");
        push_line(&mut output, d);
        let mut e = owned(indent);
        push_str(&mut e, "*)");
        push_line(&mut output, e);
        let mut f = copy_string(&ii);
        push_str(&mut f, "exit 1");
        push_line(&mut output, f);
        let mut g = copy_string(&ii);
        push_str(&mut g, ";;");
        push_line(&mut output, g);
        let mut h = owned(indent);
        push_str(&mut h, "esac");
        push_line(&mut output, h);
        push_line(&mut output, owned("done"));
        push_line(&mut output, owned("shift"));
        let ghost tail_start = texts(output@);
        let mut j: usize = 0;
        while j < self.params.len()
            invariant
                j <= self.params@.len(),
                ps == params_view(self.params@),
                texts(output@) == tail_start + concat_all(ps.take(j as int).map_values(|p: ParamView| positional_lines(p))),
            decreases self.params@.len() - j,
        {
            self.append_positional(&mut output, &self.params[j]);
            proof {
                let f = |p: ParamView| positional_lines(p);
                assert(ps.take(j + 1) =~= ps.take(j as int).push(ps[j as int]));
                assert(ps.take(j + 1).map_values(f) =~= ps.take(j as int).map_values(f).push(f(ps[j as int])));
                lemma_concat_all_push(ps.take(j as int).map_values(f), f(ps[j as int]));
            }
            j = j + 1;
        }
        assert(texts(output@) =~= getopt_script(self@.about, ps, args@, an, indent@));
        join_texts(&output, "\n")
    }
}

/// A given boolean option stores the opposite of its default: its `case`
/// branch assigns `0` when the default is a non-zero integer, and `1` when
/// the default is zero or not an integer literal; then it shifts the flag
/// away and ends the branch.
pub proof fn law_bool_option_inverts_default(
    about: Seq<char>,
    ps: Seq<ParamView>,
    p: ParamView,
    ind: Seq<char>,
    run_name: Seq<char>,
)
    requires
        p.default_kind is Bool,
        match p.kind {
            ParamKindView::Optional(_, _, is_help) => !is_help,
            ParamKindView::Positional(_) => false,
        },
    ensures
        ({
            let lines = optional_lines(about, ps, p, ind, run_name);
            let given = match p.default_int {
                Some(v) => if v != 0 { "0"@ } else { "1"@ },
                None => "1"@,
            };
            &&& lines.len() == 4
            &&& lines[1] == ind + ind + p.name + "="@ + given
            &&& lines[2] == ind + ind + "shift"@
            &&& lines[3] == ind + ind + ";;"@
        }),
{
}

/// The help text is aligned: in every parameter's line the description and
/// its dots together take the same number of bytes, three more than the
/// widest description.
pub proof fn law_help_entries_align(ps: Seq<ParamView>, i: int)
    requires
        0 <= i < ps.len(),
    ensures
        byte_len(option_text(ps[i])) + dots((help_width(ps) - byte_len(option_text(ps[i])) + 3) as nat).len()
            == help_width(ps) + 3,
{
    lemma_help_width_bound(ps, i);
}

/// A `param(...)` invocation: the default value of the parameter it
/// declared, once parsed.
pub struct ParamCli {
    pub default: Option<ParamDefault>,
}

/// Why a `param(...)`, `parser(...)` or `getopt(...)` invocation was
/// rejected, by the argument at fault.
#[derive(Debug, Clone, Copy, PartialEq, Eq, Structural)]
pub enum InvocationError {
    /// The parser argument is no parser object.
    ParserNotFound,
    /// The option argument is no literal string.
    OptionNotLiteral,
    /// The option string describes no parameter.
    OptionNotValid,
    /// The help (or about) argument is no literal string.
    TextNotLiteral,
}

impl InvocationError {
    /// The error message, shown at the argument at fault.
    pub fn message(&self) -> (r: &'static str)
        ensures
            r@ == (match *self {
                InvocationError::ParserNotFound => "Expected parser object"@,
                InvocationError::OptionNotLiteral => "Expected literal string"@,
                InvocationError::OptionNotValid => "Expected option string"@,
                InvocationError::TextNotLiteral => "Expected literal string"@,
            }),
    {
        match self {
            InvocationError::ParserNotFound => "Expected parser object",
            InvocationError::OptionNotLiteral => "Expected literal string",
            InvocationError::OptionNotValid => "Expected option string",
            InvocationError::TextNotLiteral => "Expected literal string",
        }
    }
}

/// The outcome of `param(parser, option, default, help)`, given whether the
/// parser argument names a parser and the literal texts of the option and
/// help arguments: the parameter, or the first argument at fault.
pub open spec fn param_invocation(
    parser_found: bool,
    option: Option<Seq<char>>,
    default: ParamDefault,
    help: Option<Seq<char>>,
) -> Result<ParamView, InvocationError> {
    if !parser_found {
        Err(InvocationError::ParserNotFound)
    } else {
        match option {
            None => Err(InvocationError::OptionNotLiteral),
            Some(o) => match option_kind(o) {
                None => Err(InvocationError::OptionNotValid),
                Some(kind) => match help {
                    None => Err(InvocationError::TextNotLiteral),
                    Some(h) => Ok(
                        ParamView {
                            name: Seq::empty(),
                            kind,
                            default_kind: default.kind,
                            default_int: default.int_value,
                            help: h,
                        },
                    ),
                },
            },
        }
    }
}

pub open spec fn param_result_view(r: Result<ParamImpl, InvocationError>) -> Result<ParamView, InvocationError> {
    match r {
        Ok(p) => Ok(p@),
        Err(e) => Err(e),
    }
}

impl ParamCli {
    /// The parameter declared by `param(parser, option, default, help)`
    /// (see [`param_invocation`]).
    pub fn parse_parts(parser_found: bool, option: Option<&str>, default: ParamDefault, help: Option<&str>) -> (r: Result<
        ParamImpl,
        InvocationError,
    >)
        ensures
            param_result_view(r) == param_invocation(
                parser_found,
                crate::text::opt_text(option),
                default,
                crate::text::opt_text(help),
            ),
    {
        if !parser_found {
            return Err(InvocationError::ParserNotFound);
        }
        let option = match option {
            Some(o) => o,
            None => {
                return Err(InvocationError::OptionNotLiteral);
            },
        };
        let kind = match ParamKind::from(option) {
            Some(k) => k,
            None => {
                return Err(InvocationError::OptionNotValid);
            },
        };
        let help = match help {
            Some(h) => owned(h),
            None => {
                return Err(InvocationError::TextNotLiteral);
            },
        };
        Ok(ParamImpl::new(kind, default, help))
    }

    /// Records `param` as this invocation's parameter and adds it to
    /// `parser`.
    pub fn declare(&mut self, parser: &mut ParserImpl, param: ParamImpl)
        ensures
            final(self).default == Some(param.default),
            final(parser)@.about == old(parser)@.about,
            final(parser)@.params == old(parser)@.params.push(param@),
    {
        self.default = Some(ParamDefault { kind: param.default.kind.copied(), int_value: param.default.int_value });
        parser.add_param(param);
    }

    /// The type of the parameter's default value (`Null` before parsing).
    pub fn get_type(&self) -> (r: Type)
        ensures
            r == (match self.default {
                Some(d) => d.kind,
                None => Type::Null,
            }),
    {
        match &self.default {
            Some(d) => d.kind.copied(),
            None => Type::Null,
        }
    }
}

/// A `parser(...)` invocation.
pub struct ParserCli {}

impl ParserCli {
    /// The parser created by `parser(about)`, given the literal text of its
    /// argument.
    pub fn parse_parts(about: Option<&str>) -> (r: Result<ParserImpl, InvocationError>)
        ensures
            match r {
                Ok(p) => about matches Some(a) && p@.about == a@ && p@.params == Seq::<ParamView>::empty(),
                Err(e) => about is None && e == InvocationError::TextNotLiteral,
            },
    {
        match about {
            Some(a) => Ok(ParserImpl::new(owned(a))),
            None => Err(InvocationError::TextNotLiteral),
        }
    }

    /// A parser is no value.
    pub fn get_type(&self) -> (r: Type)
        ensures
            r == Type::Null,
    {
        Type::Null
    }
}

/// A `getopt(...)` invocation.
pub struct GetoptCli {}

impl GetoptCli {
    /// `getopt(parser, args)` adds the `--help` option to its parser.
    pub fn attach(parser: &mut ParserImpl)
        ensures
            final(parser)@.about == old(parser)@.about,
            final(parser)@.params == old(parser)@.params.push(help_param()),
    {
        parser.add_param(ParamImpl::help());
    }

    /// Parsing the arguments gives no value.
    pub fn get_type(&self) -> (r: Type)
        ensures
            r == Type::Null,
    {
        Type::Null
    }
}

impl<M> DocumentationModule<M> for ParamCli {
    /// Command line declarations add nothing to the documentation.
    fn document(&self, meta: &M) -> (r: String)
        ensures
            r@ == Seq::<char>::empty(),
    {
        String::new()
    }
}

impl<M> DocumentationModule<M> for ParserCli {
    /// Command line declarations add nothing to the documentation.
    fn document(&self, meta: &M) -> (r: String)
        ensures
            r@ == Seq::<char>::empty(),
    {
        String::new()
    }
}

impl<M> DocumentationModule<M> for GetoptCli {
    /// Command line declarations add nothing to the documentation.
    fn document(&self, meta: &M) -> (r: String)
        ensures
            r@ == Seq::<char>::empty(),
    {
        String::new()
    }
}

} // verus!
