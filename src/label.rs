//! A line of coloured text at a fixed position.
use vstd::prelude::*;
use vstd::utf8::encode_utf8;

use crate::escape::{fg_reset_bytes, fg_reset_code, goto_bytes, goto_code, push_all};

verus! {

/// The state of a label: the cell where the text starts, the text, and the
/// bytes that set its colour.
pub struct TextLabelView {
    pub pos: (u16, u16),
    pub text: Seq<char>,
    pub col: Seq<u8>,
}

impl TextLabelView {
    /// What `render` appends: the colour, a move to `pos`, the text in UTF-8,
    /// and a reset of the foreground colour.
    pub open spec fn rendering(self) -> Seq<u8> {
        self.col + goto_code(self.pos.0, self.pos.1) + encode_utf8(self.text) + fg_reset_code()
    }
}

/// Text drawn in one colour from a fixed cell.
pub struct TextLabel {
    pos: (u16, u16),
    text: String,
    col: Vec<u8>,
}

impl View for TextLabel {
    type V = TextLabelView;

    closed spec fn view(&self) -> TextLabelView {
        TextLabelView { pos: self.pos, text: self.text@, col: self.col@ }
    }
}

impl TextLabel {
    /// A label showing `text` from cell `pos`, drawn after the colour-setting
    /// bytes `col`.
    pub fn new(pos: (u16, u16), text: String, col: Vec<u8>) -> (l: TextLabel)
        ensures
            l@ == (TextLabelView { pos: pos, text: text@, col: col@ }),
    {
        TextLabel { pos, text, col }
    }

    /// Appends the drawing of the label to `buff`.
    pub fn render(&self, buff: &mut Vec<u8>)
        ensures
            final(buff)@ == old(buff)@ + self@.rendering(),
    {
        push_all(buff, self.col.as_slice());
        let goto = goto_bytes(self.pos.0, self.pos.1);
        push_all(buff, goto.as_slice());
        push_all(buff, self.text.as_str().as_bytes());
        let reset = fg_reset_bytes();
        push_all(buff, reset.as_slice());
        assert(buff@ =~= old(buff)@ + self@.rendering());
    }
}

} // verus!
