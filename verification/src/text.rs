//! Building blocks for emitted text: lines and lists of names.

use vstd::prelude::*;
use crate::indent::indent_text;

verus! {

/// One emitted line: the indentation for `depth`, the line's text, a newline.
pub open spec fn line(depth: nat, text: Seq<char>) -> Seq<char> {
    indent_text(depth) + text + "\n"@
}

/// The views of a sequence of strings, in order.
pub open spec fn strings_view(strings: Seq<String>) -> Seq<Seq<char>> {
    Seq::new(strings.len(), |i: int| strings[i]@)
}

/// Appends to `out` the line made of the rendered indentation `indent` and `text`.
pub fn push_line(out: &mut String, indent: &str, text: &str)
    ensures
        final(out)@ == old(out)@ + (indent@ + text@ + "\n"@),
{
    out.append(indent);
    out.append(text);
    out.append("\n");
    assert(out@ =~= old(out)@ + (indent@ + text@ + "\n"@));
}

/// A new block of text whose first line is `indent`, `text` and a newline.
pub fn first_line(indent: &str, text: &str) -> (block: String)
    ensures
        block@ == indent@ + text@ + "\n"@,
{
    let mut block = String::from_str(indent);
    block.append(text);
    block.append("\n");
    block
}

/// The three pieces `before`, `middle` and `after` joined into one string.
pub fn join3(before: &str, middle: &str, after: &str) -> (joined: String)
    ensures
        joined@ == before@ + middle@ + after@,
{
    let mut joined = String::from_str(before);
    joined.append(middle);
    joined.append(after);
    joined
}

/// Appends to `out` the line made of the rendered indentation `indent` and
/// the three pieces `before`, `middle` and `after`.
pub fn push_line3(out: &mut String, indent: &str, before: &str, middle: &str, after: &str)
    ensures
        final(out)@ == old(out)@ + (indent@ + (before@ + middle@ + after@) + "\n"@),
{
    let text = join3(before, middle, after);
    push_line(out, indent, text.as_str());
}

} // verus!
