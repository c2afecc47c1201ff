use vstd::prelude::*;
use crate::cli_param::{pieces, split_pieces};
use crate::text::{chars_of, concat_all, owned, push_char, push_str, texts};

verus! {

/// The upper case form of `c` (one or more characters), as
/// `char::to_uppercase` gives it.
pub uninterp spec fn char_upper_case(c: char) -> Seq<char>;

/// `char::to_uppercase` collected into a string.  The contract only names
/// the result, which Unicode's case tables decide.
#[verifier::external_body]
fn upper_char(c: char) -> (r: String)
    ensures
        r@ == char_upper_case(c),
{
    c.to_uppercase().to_string()
}

/// A word with its first character in upper case.
pub open spec fn capitalized(word: Seq<char>) -> Seq<char> {
    if word.len() == 0 {
        Seq::empty()
    } else {
        char_upper_case(word[0]) + word.drop_first()
    }
}

/// The name of a keyword kind written `kind` in snake case
/// (`builtin_stmt`): its `_`-separated words capitalized and joined
/// (`BuiltinStmt`).
pub open spec fn kind_name(kind: Seq<char>) -> Seq<char> {
    concat_all(pieces(kind, '_').map_values(|w: Seq<char>| capitalized(w)))
}

/// The name of the keyword kind written `kind` in snake case (see
/// [`kind_name`]).
pub fn keyword_kind_name(kind: &str) -> (r: String)
    ensures
        r@ == kind_name(kind@),
{
    let words = split_pieces(kind, '_');
    let ghost ws = texts(words@);
    let mut r = String::new();
    let mut i: usize = 0;
    while i < words.len()
        invariant
            i <= words@.len(),
            ws == texts(words@),
            ws == pieces(kind@, '_'),
            r@ == concat_all(ws.take(i as int).map_values(|w: Seq<char>| capitalized(w))),
        decreases words@.len() - i,
    {
        let ghost before = r@;
        let cs = chars_of(words[i].as_str());
        if cs.len() > 0 {
            let first = upper_char(cs[0]);
            push_str(&mut r, first.as_str());
            let ghost head = r@;
            let mut j: usize = 1;
            while j < cs.len()
                invariant
                    1 <= j <= cs@.len(),
                    r@ == head + cs@.subrange(1, j as int),
                decreases cs@.len() - j,
            {
                push_char(&mut r, cs[j]);
                j = j + 1;
                assert(r@ =~= head + cs@.subrange(1, j as int));
            }
            assert(cs@.subrange(1, cs@.len() as int) =~= cs@.drop_first());
        }
        proof {
            assert(ws[i as int] == cs@);
            assert(ws.take(i + 1) =~= ws.take(i as int).push(ws[i as int]));
            let f = |w: Seq<char>| capitalized(w);
            assert(ws.take(i + 1).map_values(f) =~= ws.take(i as int).map_values(f).push(capitalized(cs@)));
            assert(ws.take(i + 1).map_values(f).drop_last() =~= ws.take(i as int).map_values(f));
            assert(r@ =~= before + capitalized(cs@));
        }
        i = i + 1;
    }
    assert(ws.take(words@.len() as int) =~= ws);
    r
}

/// The functions that a context managed field gets.
#[derive(Debug, Clone, Copy, PartialEq, Eq, Structural)]
pub enum ContextFunction {
    /// Sets the field for the time of a closure (`with_{field}`).
    With,
    /// Swaps the field with a borrowed value for the time of a closure
    /// (`with_{field}_ref`).
    WithRef,
    /// Sets a part of the field through its setter for the time of a
    /// closure (`with_{field}_fn`).
    WithFn,
    /// The setter of a helper struct's field (`set_{field}`).
    Setter,
}

/// The name of a context function of the field `field`.
pub open spec fn context_function_name(field: Seq<char>, f: ContextFunction) -> Seq<char> {
    match f {
        ContextFunction::With => "with_"@ + field,
        ContextFunction::WithRef => "with_"@ + field + "_ref"@,
        ContextFunction::WithFn => "with_"@ + field + "_fn"@,
        ContextFunction::Setter => "set_"@ + field,
    }
}

/// The name of the context function `f` of the field `field`.
pub fn context_function(field: &str, f: ContextFunction) -> (r: String)
    ensures
        r@ == context_function_name(field@, f),
{
    match f {
        ContextFunction::With => {
            let mut r = owned("with_");
            push_str(&mut r, field);
            r
        },
        ContextFunction::WithRef => {
            let mut r = owned("with_");
            push_str(&mut r, field);
            push_str(&mut r, "_ref");
            r
        },
        ContextFunction::WithFn => {
            let mut r = owned("with_");
            push_str(&mut r, field);
            push_str(&mut r, "_fn");
            r
        },
        ContextFunction::Setter => {
            let mut r = owned("set_");
            push_str(&mut r, field);
            r
        },
    }
}

} // verus!
