use vstd::prelude::*;
use crate::text::{join_texts, joined, owned, push_str, texts};

verus! {

/// The test line of a branch: `if` for the first branch, `elif` for the
/// others.
pub open spec fn branch_test(first: bool, cond: Seq<char>) -> Seq<char> {
    (if first {
        "if [ "@
    } else {
        "elif [ "@
    }) + cond + " != 0 ]; then"@
}

/// The lines of the branches `bs` (translated condition, translated block).
pub open spec fn branch_lines(bs: Seq<(Seq<char>, Seq<char>)>) -> Seq<Seq<char>>
    decreases bs.len(),
{
    if bs.len() == 0 {
        Seq::empty()
    } else {
        branch_lines(bs.drop_last()) + seq![branch_test(bs.len() == 1, bs.last().0), bs.last().1]
    }
}

/// The lines of a whole chain: its branches, the `else` block if any, and
/// `fi`.
pub open spec fn chain_lines(bs: Seq<(Seq<char>, Seq<char>)>, else_block: Option<Seq<char>>) -> Seq<Seq<char>> {
    branch_lines(bs) + (match else_block {
        Some(b) => seq!["else"@, b],
        None => Seq::empty(),
    }) + seq!["fi"@]
}

pub open spec fn pairs_view(v: Seq<(String, String)>) -> Seq<(Seq<char>, Seq<char>)> {
    v.map_values(|p: (String, String)| (p.0@, p.1@))
}

/// An if chain (older form), by the translations of its conditions and
/// blocks.
pub struct IfChain {
    /// Each branch's translated condition and translated block.
    pub cond_blocks: Vec<(String, String)>,
    /// The translated `else` block, if there is one.
    pub false_block: Option<String>,
}

impl IfChain {
    /// The shell code of the chain: its lines (see [`chain_lines`]) joined
    /// by new lines.
    pub fn translate(&self) -> (r: String)
        ensures
            r@ == joined(
                chain_lines(pairs_view(self.cond_blocks@), crate::text::opt_string_view(self.false_block)),
                "\n"@,
            ),
    {
        let ghost bs = pairs_view(self.cond_blocks@);
        let mut lines: Vec<String> = Vec::new();
        let mut i: usize = 0;
        while i < self.cond_blocks.len()
            invariant
                i <= self.cond_blocks@.len(),
                bs == pairs_view(self.cond_blocks@),
                texts(lines@) == branch_lines(bs.take(i as int)),
            decreases self.cond_blocks@.len() - i,
        {
            let ghost before = lines@;
            let (cond, block) = (&self.cond_blocks[i].0, &self.cond_blocks[i].1);
            let mut test = if i == 0 {
                owned("if [ ")
            } else {
                owned("elif [ ")
            };
            push_str(&mut test, cond.as_str());
            push_str(&mut test, " != 0 ]; then");
            lines.push(test);
            lines.push(owned(block.as_str()));
            proof {
                assert(bs.take(i + 1).drop_last() =~= bs.take(i as int));
                assert(bs.take(i + 1).last() == bs[i as int]);
                assert(texts(lines@) =~= texts(before) + seq![branch_test(i == 0, bs[i as int].0), bs[i as int].1]);
            }
            i = i + 1;
        }
        let ghost before = lines@;
        match &self.false_block {
            Some(b) => {
                lines.push(owned("else"));
                lines.push(owned(b.as_str()));
            },
            None => {},
        }
        lines.push(owned("fi"));
        proof {
            assert(bs.take(self.cond_blocks@.len() as int) =~= bs);
            assert(texts(lines@) =~= chain_lines(bs, crate::text::opt_string_view(self.false_block)));
        }
        join_texts(&lines, "\n")
    }
}

/// The text of a block in a condition: `:` (and a new line) when it is
/// empty, since the shell refuses an empty branch.
pub open spec fn block_text(block: Seq<char>, is_empty: bool) -> Seq<char> {
    if is_empty {
        ":\n"@
    } else {
        block
    }
}

/// The lines of a single condition.
pub open spec fn condition_lines(expr: Seq<char>, true_block: Seq<char>, else_block: Option<Seq<char>>) -> Seq<Seq<char>> {
    seq![branch_test(true, expr), true_block] + (match else_block {
        Some(b) => seq!["else"@, b],
        None => Seq::empty(),
    }) + seq!["fi"@]
}

/// A single `if` with an optional `else` (older form), by the translations
/// of its condition and blocks and whether each block is empty.
pub struct IfCondition {
    pub expr: String,
    pub true_block: String,
    pub true_empty: bool,
    /// The translated `else` block and whether it is empty.
    pub false_block: Option<(String, bool)>,
}

pub open spec fn else_text(b: Option<(String, bool)>) -> Option<Seq<char>> {
    match b {
        Some((t, e)) => Some(block_text(t@, e)),
        None => None,
    }
}

fn block_string(block: &str, is_empty: bool) -> (r: String)
    ensures
        r@ == block_text(block@, is_empty),
{
    if is_empty {
        owned(":\n")
    } else {
        owned(block)
    }
}

impl IfCondition {
    /// The shell code of the condition: its lines (see
    /// [`condition_lines`]) joined by new lines.
    pub fn translate(&self) -> (r: String)
        ensures
            r@ == joined(
                condition_lines(self.expr@, block_text(self.true_block@, self.true_empty), else_text(self.false_block)),
                "\n"@,
            ),
    {
        let mut lines: Vec<String> = Vec::new();
        let mut test = owned("if [ ");
        push_str(&mut test, self.expr.as_str());
        push_str(&mut test, " != 0 ]; then");
        lines.push(test);
        lines.push(block_string(self.true_block.as_str(), self.true_empty));
        match &self.false_block {
            Some((b, e)) => {
                lines.push(owned("else"));
                lines.push(block_string(b.as_str(), *e));
            },
            None => {},
        }
        lines.push(owned("fi"));
        assert(texts(lines@) =~= condition_lines(
            self.expr@,
            block_text(self.true_block@, self.true_empty),
            else_text(self.false_block),
        ));
        join_texts(&lines, "\n")
    }
}

/// The text of a block in a condition, which the shell accepts: `:` and a
/// new line in place of an empty block.
pub open spec fn nonempty_block(block: &String, is_empty: bool) -> Seq<char> {
    if is_empty {
        seq![':', '\n']
    } else {
        block@
    }
}

/// The code of a single condition is `if [ expr != 0 ]; then`, its block,
/// then (when there is one) `else` and the `else` block, then `fi`, each on
/// a line of its own; an empty block, the `else` block included, is written
/// `:` so that no branch of the shell code is empty.
pub proof fn law_condition_blocks_never_empty(c: IfCondition)
    ensures
        joined(
            condition_lines(c.expr@, block_text(c.true_block@, c.true_empty), else_text(c.false_block)),
            "\n"@,
        ) == "if [ "@ + c.expr@ + " != 0 ]; then\n"@ + nonempty_block(&c.true_block, c.true_empty) + (match c.false_block {
            Some((b, e)) => "\nelse\n"@ + nonempty_block(&b, e),
            None => Seq::empty(),
        }) + "\nfi"@,
{
    reveal_strlit(":\n");
    reveal_strlit("if [ ");
    reveal_strlit("\nelse\n");
    reveal_strlit("\nfi");
    reveal_strlit("\n");
    reveal_strlit("else");
    reveal_strlit("fi");
    reveal_strlit(" != 0 ]; then");
    reveal_strlit(" != 0 ]; then\n");
    let t = block_text(c.true_block@, c.true_empty);
    let head = branch_test(true, c.expr@);
    assert(t == nonempty_block(&c.true_block, c.true_empty));
    match c.false_block {
        Some((b, e)) => {
            let ls = condition_lines(c.expr@, t, else_text(c.false_block));
            assert(ls =~= seq![head, t, "else"@, block_text(b@, e), "fi"@]);
            assert(ls.drop_last().drop_last().drop_last().drop_last() =~= seq![head]);
            assert(ls.drop_last().drop_last().drop_last() =~= seq![head, t]);
            assert(ls.drop_last().drop_last() =~= seq![head, t, "else"@]);
            assert(ls.drop_last() =~= seq![head, t, "else"@, block_text(b@, e)]);
            assert(block_text(b@, e) == nonempty_block(&b, e));
            let nl = "\n"@;
            assert(joined(seq![head], nl) == head);
            assert(joined(seq![head, t], nl) == head + nl + t);
            assert(joined(seq![head, t, "else"@], nl) == head + nl + t + nl + "else"@);
            assert(joined(seq![head, t, "else"@, block_text(b@, e)], nl) == head + nl + t + nl + "else"@ + nl + block_text(b@, e));
            assert(joined(ls, nl) == head + nl + t + nl + "else"@ + nl + block_text(b@, e) + nl + "fi"@);
            assert(joined(ls, "\n"@) =~= "if [ "@ + c.expr@ + " != 0 ]; then\n"@ + t + "\nelse\n"@ + nonempty_block(&b, e) + "\nfi"@);
        },
        None => {
            let ls = condition_lines(c.expr@, t, else_text(c.false_block));
            assert(ls =~= seq![head, t, "fi"@]);
            assert(ls.drop_last().drop_last() =~= seq![head]);
            assert(ls.drop_last() =~= seq![head, t]);
            let nl = "\n"@;
            assert(joined(seq![head], nl) == head);
            assert(joined(seq![head, t], nl) == head + nl + t);
            assert(joined(ls, nl) == head + nl + t + nl + "fi"@);
            assert(joined(ls, "\n"@) =~= "if [ "@ + c.expr@ + " != 0 ]; then\n"@ + t + "\nfi"@);
        },
    }
}

} // verus!
