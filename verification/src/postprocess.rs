use vstd::prelude::*;
use crate::text::{owned, copy_string, texts};

verus! {

/// Whether the wildcard pattern `p` matches the whole of `s`: `?` matches
/// exactly one character, `*` any run of characters (possibly empty), and
/// every other character itself; there are no escapes.
pub open spec fn wild_match(p: Seq<char>, s: Seq<char>) -> bool
    decreases p.len() + s.len(),
{
    if p.len() == 0 {
        s.len() == 0
    } else if p[0] == '*' {
        wild_match(p.drop_first(), s) || (s.len() > 0 && wild_match(p, s.drop_first()))
    } else {
        s.len() > 0 && (p[0] == '?' || p[0] == s[0]) && wild_match(p.drop_first(), s.drop_first())
    }
}

/// `wildmatch::WildMatch::new(pattern).matches(text)`: case-sensitive
/// wildcard matching of the whole text, as the crate's documentation
/// describes it (`?` one character, `*` any run, no escapes).
#[verifier::external_body]
fn wildcard_matches(pattern: &str, text: &str) -> (r: bool)
    ensures
        r == wild_match(pattern@, text@),
{
    wildmatch::WildMatch::new(pattern).matches(text)
}

/// An external program that the generated script is piped through.
pub struct PostProcessor {
    pub name: String,
    pub bin: String,
    /// Command line arguments given to the program.
    pub args: Vec<String>,
}

/// The mathematical content of a [`PostProcessor`].
pub struct PostProcessorView {
    pub name: Seq<char>,
    pub bin: Seq<char>,
    pub args: Seq<Seq<char>>,
}

impl View for PostProcessor {
    type V = PostProcessorView;

    open spec fn view(&self) -> PostProcessorView {
        PostProcessorView { name: self.name@, bin: self.bin@, args: texts(self.args@) }
    }
}

/// The views of a sequence of postprocessors.
pub open spec fn postprocessors_view(v: Seq<PostProcessor>) -> Seq<PostProcessorView> {
    v.map_values(|p: PostProcessor| p@)
}

/// The postprocessors of the default pipeline, in order: `shfmt` (indent by
/// four, bash dialect) and `bshchk` (ignoring the shebang line).
pub open spec fn default_postprocessors() -> Seq<PostProcessorView> {
    seq![
        PostProcessorView {
            name: "shfmt"@,
            bin: "/usr/bin/shfmt"@,
            args: seq!["-i"@, "4"@, "-ln"@, "bash"@],
        },
        PostProcessorView {
            name: "bshchk"@,
            bin: "/usr/bin/bshchk"@,
            args: seq!["--ignore-shebang"@],
        },
    ]
}

/// Whether some pattern of `filters` matches `name`.
pub open spec fn disabled_by(filters: Seq<Seq<char>>, name: Seq<char>) -> bool {
    exists|i: int| 0 <= i < filters.len() && wild_match(filters[i], name)
}

/// The elements of `v` whose name no filter matches, in order.
pub open spec fn kept(v: Seq<PostProcessorView>, filters: Seq<Seq<char>>) -> Seq<PostProcessorView>
    decreases v.len(),
{
    if v.len() == 0 {
        Seq::empty()
    } else if disabled_by(filters, v.last().name) {
        kept(v.drop_last(), filters)
    } else {
        kept(v.drop_last(), filters).push(v.last())
    }
}

fn new_args(items: &[&str]) -> (r: Vec<String>)
    ensures
        r@.len() == items@.len(),
        forall|i: int| 0 <= i < items@.len() ==> r@[i]@ == items@[i]@,
{
    let mut r: Vec<String> = Vec::new();
    let mut i: usize = 0;
    while i < items.len()
        invariant
            i <= items@.len(),
            r@.len() == i,
            forall|k: int| 0 <= k < i ==> r@[k]@ == items@[k]@,
        decreases items@.len() - i,
    {
        r.push(owned(items[i]));
        i = i + 1;
    }
    r
}

fn copy_postprocessor(p: &PostProcessor) -> (r: PostProcessor)
    ensures
        r@ == p@,
{
    let mut args: Vec<String> = Vec::new();
    let mut i: usize = 0;
    while i < p.args.len()
        invariant
            i <= p.args@.len(),
            texts(args@) == texts(p.args@).take(i as int),
        decreases p.args@.len() - i,
    {
        let ghost before = args@;
        let c = copy_string(&p.args[i]);
        args.push(c);
        proof {
            assert(args@ == before.push(c));
            assert(texts(args@) =~= texts(before).push(c@));
        }
        i = i + 1;
        assert(texts(args@) =~= texts(p.args@).take(i as int));
    }
    assert(texts(p.args@).take(p.args@.len() as int) =~= texts(p.args@));
    PostProcessor { name: copy_string(&p.name), bin: copy_string(&p.bin), args }
}

impl PostProcessor {
    pub fn new(name: &str, bin: &str) -> (r: Self)
        ensures
            r@.name == name@,
            r@.bin == bin@,
            r@.args == Seq::<Seq<char>>::empty(),
    {
        let r = PostProcessor { name: owned(name), bin: owned(bin), args: Vec::new() };
        assert(texts(r.args@) =~= Seq::<Seq<char>>::empty());
        r
    }

    /// The default postprocessors.
    pub fn get_default() -> (r: Vec<Self>)
        ensures
            postprocessors_view(r@) == default_postprocessors(),
    {
        let mut shfmt = PostProcessor::new("shfmt", "/usr/bin/shfmt");
        shfmt.args = new_args(&["-i", "4", "-ln", "bash"]);
        let mut bshchk = PostProcessor::new("bshchk", "/usr/bin/bshchk");
        bshchk.args = new_args(&["--ignore-shebang"]);
        let mut r: Vec<Self> = Vec::new();
        r.push(shfmt);
        r.push(bshchk);
        proof {
            assert(texts(r@[0].args@) =~= seq!["-i"@, "4"@, "-ln"@, "bash"@]);
            assert(texts(r@[1].args@) =~= seq!["--ignore-shebang"@]);
            assert(postprocessors_view(r@) =~= default_postprocessors());
        }
        r
    }

    /// The default postprocessors that none of the wildcard `filters`
    /// matches by name, in their default order.
    pub fn filter_default(filters: Vec<String>) -> (r: Vec<Self>)
        ensures
            postprocessors_view(r@) == kept(default_postprocessors(), texts(filters@)),
    {
        let default = Self::get_default();
        let ghost fs = texts(filters@);
        let mut r: Vec<Self> = Vec::new();
        let mut i: usize = 0;
        while i < default.len()
            invariant
                i <= default@.len(),
                fs == texts(filters@),
                postprocessors_view(default@) == default_postprocessors(),
                postprocessors_view(r@) == kept(postprocessors_view(default@).take(i as int), fs),
            decreases default@.len() - i,
        {
            let p = &default[i];
            let ghost dv = postprocessors_view(default@);
            proof {
                assert(dv.take(i + 1).drop_last() =~= dv.take(i as int));
                assert(dv.take(i + 1).last() == p@);
            }
            let mut disabled = false;
            let mut j: usize = 0;
            while j < filters.len()
                invariant
                    j <= filters@.len(),
                    fs == texts(filters@),
                    disabled == (exists|k: int| 0 <= k < j && wild_match(fs[k], p@.name)),
                decreases filters@.len() - j,
            {
                let m = wildcard_matches(filters[j].as_str(), p.name.as_str());
                proof {
                    assert(fs[j as int] == filters@[j as int]@);
                }
                if m {
                    disabled = true;
                }
                j = j + 1;
            }
            if !disabled {
                let c = copy_postprocessor(p);
                r.push(c);
                proof {
                    assert(postprocessors_view(r@) =~= kept(dv.take(i as int), fs).push(p@));
                }
            }
            i = i + 1;
        }
        proof {
            assert(postprocessors_view(default@).take(default@.len() as int) =~= postprocessors_view(
                default@,
            ));
        }
        r
    }
}

/// `*` matches every text.
proof fn lemma_star_matches_all(s: Seq<char>)
    ensures
        wild_match(seq!['*'], s),
    decreases s.len(),
{
    let p = seq!['*'];
    assert(p.drop_first() =~= Seq::<char>::empty());
    assert(p[0] == '*');
    assert(p.len() == 1);
    if s.len() > 0 {
        lemma_star_matches_all(s.drop_first());
    } else {
        assert(wild_match(p.drop_first(), s));
    }
}

/// A filter list holding `*` disables every postprocessor: with the default
/// compiler options (`no_proc = ["*"]`) the script is not post-processed.
pub proof fn law_star_disables_all_postprocessors(filters: Seq<Seq<char>>)
    requires
        filters.contains(seq!['*']),
    ensures
        kept(default_postprocessors(), filters) == Seq::<PostProcessorView>::empty(),
{
    let i = choose|i: int| 0 <= i < filters.len() && filters[i] == seq!['*'];
    let d = default_postprocessors();
    let d1 = d.drop_last();
    lemma_star_matches_all(d.last().name);
    lemma_star_matches_all(d1.last().name);
    assert(wild_match(filters[i], d.last().name));
    assert(wild_match(filters[i], d1.last().name));
    assert(disabled_by(filters, d.last().name));
    assert(disabled_by(filters, d1.last().name));
    assert(d1.drop_last() =~= Seq::<PostProcessorView>::empty());
    assert(kept(d1.drop_last(), filters) == Seq::<PostProcessorView>::empty());
    assert(kept(d1, filters) == kept(d1.drop_last(), filters));
    assert(kept(d, filters) == kept(d1, filters));
}

/// Filtering keeps postprocessors in order and only drops matched ones: an
/// empty filter list keeps the whole default pipeline.
pub proof fn law_no_filters_keep_all()
    ensures
        kept(default_postprocessors(), Seq::<Seq<char>>::empty()) == default_postprocessors(),
{
    let d = default_postprocessors();
    let f = Seq::<Seq<char>>::empty();
    let d1 = d.drop_last();
    assert(!disabled_by(f, d.last().name));
    assert(!disabled_by(f, d1.last().name));
    assert(d1.drop_last() =~= Seq::<PostProcessorView>::empty());
    assert(kept(d1.drop_last(), f) == Seq::<PostProcessorView>::empty());
    assert(kept(d1, f) == Seq::<PostProcessorView>::empty().push(d1.last()));
    assert(kept(d, f) == kept(d1, f).push(d.last()));
    assert(kept(d, f) =~= d);
}

/// A name is disabled by two filter lists together exactly when one of
/// them disables it.
proof fn lemma_disabled_by_concat(f1: Seq<Seq<char>>, f2: Seq<Seq<char>>, name: Seq<char>)
    ensures
        disabled_by(f1 + f2, name) == (disabled_by(f1, name) || disabled_by(f2, name)),
{
    let f = f1 + f2;
    if disabled_by(f1, name) {
        let i = choose|i: int| 0 <= i < f1.len() && wild_match(f1[i], name);
        assert(f[i] == f1[i]);
    }
    if disabled_by(f2, name) {
        let i = choose|i: int| 0 <= i < f2.len() && wild_match(f2[i], name);
        assert(f[f1.len() + i] == f2[i]);
    }
    if disabled_by(f, name) {
        let i = choose|i: int| 0 <= i < f.len() && wild_match(f[i], name);
        if i < f1.len() {
            assert(f1[i] == f[i]);
        } else {
            assert(f2[i - f1.len()] == f[i]);
        }
    }
}

/// Filtering by one list of patterns and then by another is filtering by
/// both lists at once.
pub proof fn law_filters_compose(v: Seq<PostProcessorView>, f1: Seq<Seq<char>>, f2: Seq<Seq<char>>)
    ensures
        kept(kept(v, f1), f2) == kept(v, f1 + f2),
    decreases v.len(),
{
    if v.len() > 0 {
        let x = v.last();
        let rest = v.drop_last();
        law_filters_compose(rest, f1, f2);
        lemma_disabled_by_concat(f1, f2, x.name);
        if !disabled_by(f1, x.name) {
            let k = kept(rest, f1);
            assert(k.push(x).drop_last() =~= k);
            assert(k.push(x).last() == x);
        }
    }
}

} // verus!
