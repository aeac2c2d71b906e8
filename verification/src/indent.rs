//! Indentation of emitted text.

use vstd::prelude::*;

verus! {

/// Number of spaces that one nesting level is indented by.
pub open spec fn indent_width() -> nat {
    4
}

/// The text that indents a line nested `depth` levels deep: `depth` times
/// four spaces.
pub open spec fn indent_text(depth: nat) -> Seq<char> {
    Seq::new(indent_width() * depth, |i: int| ' ')
}

/// One more level of nesting adds one unit of four spaces.
pub proof fn lemma_indent_step(depth: nat)
    ensures
        indent_text(depth + 1) == indent_text(depth) + "    "@,
        indent_text(0) == Seq::<char>::empty(),
{
    reveal_strlit("    ");
    assert(indent_text(depth + 1) =~= indent_text(depth) + "    "@);
    assert(indent_text(0) =~= Seq::<char>::empty());
}

/// A nesting depth, rendered as that many indent units.
#[derive(Debug, Clone, Copy)]
pub struct Indent(pub usize);

impl Indent {
    /// The nesting depth as a mathematical number.
    pub open spec fn depth(&self) -> nat {
        self.0 as nat
    }

    /// Appends the indentation for this depth to `out`.
    pub fn write_to(&self, out: &mut String)
        ensures
            final(out)@ == old(out)@ + indent_text(self.depth()),
    {
        let mut level: usize = 0;
        proof {
            lemma_indent_step(0);
            assert(out@ =~= old(out)@ + indent_text(0));
        }
        while level < self.0
            invariant
                level <= self.0,
                out@ == old(out)@ + indent_text(level as nat),
            decreases self.0 - level,
        {
            out.append("    ");
            proof {
                lemma_indent_step(level as nat);
                assert(old(out)@ + indent_text(level as nat) + "    "@ =~= old(out)@ + (indent_text(
                    level as nat,
                ) + "    "@));
            }
            level = level + 1;
        }
    }

    /// The indentation for this depth as a string of its own.
    pub fn render(&self) -> (text: String)
        ensures
            text@ == indent_text(self.depth()),
    {
        let mut text = String::new();
        self.write_to(&mut text);
        assert(text@ =~= indent_text(self.depth()));
        text
    }
}

} // verus!
