//! The output sink: an append-only text buffer with optional source-map
//! marks. Both printers stream their output here; call order is emission
//! order, and nothing is ever read back.

use vstd::prelude::*;
use vstd::string::StringExecFns;
use crate::base::Pos;

verus! {

/// One source-map mark: `offset` is the byte offset in the output text at
/// which a piece of text tied to the input position `position` starts.
#[derive(Clone, Copy, PartialEq, Eq, Structural, Debug)]
pub struct SourceMark {
    pub position: Pos,
    pub offset: usize,
}

/// Accumulates generated text; position-tagged writes also record a mark.
pub struct SourceMapWriter {
    pub text: String,
    pub marks: Vec<SourceMark>,
}

impl SourceMapWriter {
    pub fn new() -> (r: SourceMapWriter)
        ensures
            r.text@ == Seq::<char>::empty(),
            r.marks@ == Seq::<SourceMark>::empty(),
    {
        SourceMapWriter { text: String::new(), marks: Vec::new() }
    }

    /// Raw text append.
    pub fn write(&mut self, s: &str)
        ensures
            final(self).text@ == old(self).text@ + s@,
            final(self).marks@ == old(self).marks@,
    {
        self.text.append(s);
    }

    /// Text append tagged with a source position: records a mark pointing
    /// the current output offset at `pos`, then appends the text.
    pub fn write_for(&mut self, s: &str, pos: Pos)
        ensures
            final(self).text@ == old(self).text@ + s@,
            final(self).marks@ == old(self).marks@.push(
                SourceMark {
                    position: pos,
                    offset: vstd::utf8::encode_utf8(old(self).text@).len() as usize,
                },
            ),
    {
        let offset = self.text.as_str().len();
        self.marks.push(SourceMark { position: pos, offset });
        self.text.append(s);
    }
}

} // verus!
