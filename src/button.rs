//! A clickable rectangular button with edge-triggered press and release
//! queries and a level-triggered held query.
use vstd::prelude::*;

use termion::event::MouseButton;

use crate::escape::{
    fg_reset_bytes, fg_reset_code, goto_bytes, goto_code, left_bytes, left_code, push_all,
};

verus! {

#[verifier::external_type_specification]
#[verifier::external_body]
pub struct ExMouseButton(MouseButton);

/// Relies on the derived `PartialEq` of termion's `MouseButton`, an enum
/// without fields: two values are equal exactly when they are the same variant.
#[verifier::external_body]
fn same_button(a: MouseButton, b: MouseButton) -> (r: bool)
    ensures
        r == (a == b),
{
    a == b
}

/// The mouse events a button reacts to, in one-based terminal coordinates.
#[derive(Clone, Copy, Debug)]
pub enum MouseInput {
    /// `button` went down at column `x`, row `y`.
    Press(MouseButton, u16, u16),
    /// The button that was down went up at column `x`, row `y`.
    Release(u16, u16),
    /// Any other event; a button ignores it.
    Other,
}

/// The full-block glyph `█` in UTF-8.
pub const FULL_BLOCK: [u8; 3] = [0xe2, 0x96, 0x88];

/// The medium-shade glyph `▒` in UTF-8.
pub const MEDIUM_SHADE: [u8; 3] = [0xe2, 0x96, 0x92];

/// Whether `p` lies in the closed rectangle from corner `c1` to corner `c2`.
pub open spec fn in_region(c1: (u16, u16), c2: (u16, u16), p: (u16, u16)) -> bool {
    c1.0 <= p.0 <= c2.0 && c1.1 <= p.1 <= c2.1
}

/// `s` repeated `n` times.
pub open spec fn repeat(s: Seq<u8>, n: nat) -> Seq<u8>
    decreases n,
{
    if n == 0 {
        Seq::empty()
    } else {
        repeat(s, (n - 1) as nat) + s
    }
}

/// The state of a button: its region (corners `c1` and `c2`, inclusive), the
/// bytes that set its colour, the press not yet observed, the button held
/// since a press inside the region, and the release not yet observed.
pub struct ButtonView {
    pub c1: (u16, u16),
    pub c2: (u16, u16),
    pub col: Seq<u8>,
    pub pressed: Option<MouseButton>,
    pub held: Option<MouseButton>,
    pub released: Option<MouseButton>,
}

impl ButtonView {
    /// The number of columns of the region.
    pub open spec fn width(self) -> u16 {
        (self.c2.0 - self.c1.0 + 1) as u16
    }

    /// The number of rows of the region.
    pub open spec fn height(self) -> nat {
        (self.c2.1 - self.c1.1 + 1) as nat
    }

    /// The glyph that fills the region: shaded while a button is held.
    pub open spec fn fill(self) -> Seq<u8> {
        if self.held.is_some() {
            MEDIUM_SHADE@
        } else {
            FULL_BLOCK@
        }
    }

    /// One row of the region, then a line break and a move back to its left edge.
    pub open spec fn row(self) -> Seq<u8> {
        repeat(self.fill(), self.width() as nat) + seq![0x0au8] + left_code(self.width())
    }

    /// What `render` appends.
    pub open spec fn rendering(self) -> Seq<u8> {
        goto_code(self.c1.0, self.c1.1) + self.col + repeat(self.row(), self.height())
            + fg_reset_code()
    }

    /// The state after a `pressed` query: the pending press is consumed.
    pub open spec fn take_press(self) -> ButtonView {
        ButtonView { pressed: None, ..self }
    }

    /// The state after a `released` query: the pending release is consumed.
    pub open spec fn take_release(self) -> ButtonView {
        ButtonView { released: None, ..self }
    }

    /// The state after one event.
    pub open spec fn step(self, e: MouseInput) -> ButtonView {
        match e {
            MouseInput::Press(b, x, y) => if in_region(self.c1, self.c2, (x, y)) {
                ButtonView { pressed: Some(b), held: Some(b), released: None, ..self }
            } else {
                ButtonView { released: None, ..self }
            },
            MouseInput::Release(x, y) => ButtonView {
                released: if self.held.is_some() && in_region(self.c1, self.c2, (x, y)) {
                    self.held
                } else {
                    self.released
                },
                held: None,
                pressed: None,
                ..self
            },
            MouseInput::Other => self,
        }
    }
}

/// A clickable rectangle drawn in one colour.
pub struct Button {
    c1: (u16, u16),
    c2: (u16, u16),
    col: Vec<u8>,
    mousepress: Option<MouseButton>,
    mouseheld: Option<MouseButton>,
    mouserelease: Option<MouseButton>,
}

impl View for Button {
    type V = ButtonView;

    closed spec fn view(&self) -> ButtonView {
        ButtonView {
            c1: self.c1,
            c2: self.c2,
            col: self.col@,
            pressed: self.mousepress,
            held: self.mouseheld,
            released: self.mouserelease,
        }
    }
}

impl Button {
    /// The region is non-empty and its width and height fit in a `u16`.
    #[verifier::type_invariant]
    spec fn inv(&self) -> bool {
        &&& self.c1.0 <= self.c2.0
        &&& self.c1.1 <= self.c2.1
        &&& self.c2.0 - self.c1.0 < 0xffff
        &&& self.c2.1 - self.c1.1 < 0xffff
    }

    /// A button whose top-left cell is `pos` and which spans `size` columns
    /// and rows, drawn after the colour-setting bytes `col`.
    pub fn new(pos: (u16, u16), size: (u16, u16), col: Vec<u8>) -> (b: Button)
        requires
            size.0 >= 1,
            size.1 >= 1,
            pos.0 + size.0 - 1 <= u16::MAX,
            pos.1 + size.1 - 1 <= u16::MAX,
        ensures
            b@ == (ButtonView {
                c1: pos,
                c2: ((pos.0 + size.0 - 1) as u16, (pos.1 + size.1 - 1) as u16),
                col: col@,
                pressed: None,
                held: None,
                released: None,
            }),
    {
        Button {
            c1: pos,
            c2: (pos.0 + (size.0 - 1), pos.1 + (size.1 - 1)),
            col,
            mousepress: None,
            mouseheld: None,
            mouserelease: None,
        }
    }

    /// Whether `p` lies in the button's region, edges included.
    pub fn isinside(&self, p: (u16, u16)) -> (r: bool)
        ensures
            r == in_region(self@.c1, self@.c2, p),
    {
        p.0 >= self.c1.0 && p.0 <= self.c2.0 && p.1 >= self.c1.1 && p.1 <= self.c2.1
    }

    /// Whether a press of `mousebutton` inside the region is pending. Any
    /// pending press is consumed, whichever button is asked about.
    pub fn pressed(&mut self, mousebutton: MouseButton) -> (r: bool)
        ensures
            r == (old(self)@.pressed == Some(mousebutton)),
            final(self)@ == old(self)@.take_press(),
    {
        proof {
            use_type_invariant(&*self);
        }
        match self.mousepress {
            Some(mb) => {
                self.mousepress = None;
                same_button(mb, mousebutton)
            },
            None => false,
        }
    }

    /// Whether `mousebutton` is held since a press inside the region.
    pub fn held(&self, mousebutton: MouseButton) -> (r: bool)
        ensures
            r == (self@.held == Some(mousebutton)),
    {
        match self.mouseheld {
            Some(mb) => same_button(mb, mousebutton),
            None => false,
        }
    }

    /// Whether a release of `mousebutton` inside the region is pending. Any
    /// pending release is consumed, whichever button is asked about.
    pub fn released(&mut self, mousebutton: MouseButton) -> (r: bool)
        ensures
            r == (old(self)@.released == Some(mousebutton)),
            final(self)@ == old(self)@.take_release(),
    {
        proof {
            use_type_invariant(&*self);
        }
        match self.mouserelease {
            Some(mb) => {
                self.mouserelease = None;
                same_button(mb, mousebutton)
            },
            None => false,
        }
    }

    /// Updates the press, hold and release state for one event.
    pub fn input(&mut self, e: &MouseInput)
        ensures
            final(self)@ == old(self)@.step(*e),
    {
        proof {
            use_type_invariant(&*self);
        }
        match e {
            MouseInput::Press(b, x, y) => {
                if self.isinside((*x, *y)) {
                    self.mousepress = Some(*b);
                    self.mouseheld = Some(*b);
                }
                self.mouserelease = None;
            },
            MouseInput::Release(x, y) => {
                if let Some(b) = self.mouseheld {
                    if self.isinside((*x, *y)) {
                        self.mouserelease = Some(b);
                    }
                }
                self.mouseheld = None;
                self.mousepress = None;
            },
            MouseInput::Other => {},
        }
    }

    /// Appends the drawing of the button to `buff`: a move to its top-left
    /// cell, its colour, each row filled with `█` (or `▒` while a button is
    /// held) followed by a line break and a move back to the left edge, and
    /// finally a reset of the foreground colour.
    pub fn render(&self, buff: &mut Vec<u8>)
        ensures
            final(buff)@ == old(buff)@ + self@.rendering(),
    {
        proof {
            use_type_invariant(self);
        }
        let goto = goto_bytes(self.c1.0, self.c1.1);
        push_all(buff, goto.as_slice());
        push_all(buff, self.col.as_slice());
        let width: u16 = self.c2.0 - self.c1.0 + 1;
        let height: u16 = self.c2.1 - self.c1.1 + 1;
        let fill: [u8; 3] = if self.mouseheld.is_some() {
            MEDIUM_SHADE
        } else {
            FULL_BLOCK
        };
        let left = left_bytes(width);
        let ghost head = buff@;
        let mut j: u16 = 0;
        while j < height
            invariant
                j <= height,
                height == self@.height(),
                width == self@.width(),
                fill@ == self@.fill(),
                left@ == left_code(width),
                buff@ == head + repeat(self@.row(), j as nat),
            decreases height - j,
        {
            let ghost done = buff@;
            let mut k: u16 = 0;
            while k < width
                invariant
                    k <= width,
                    buff@ == done + repeat(fill@, k as nat),
                decreases width - k,
            {
                push_all(buff, fill.as_slice());
                k = k + 1;
                assert(buff@ =~= done + repeat(fill@, k as nat));
            }
            buff.push(0x0a);
            push_all(buff, left.as_slice());
            j = j + 1;
            assert(buff@ =~= head + repeat(self@.row(), j as nat));
        }
        let reset = fg_reset_bytes();
        push_all(buff, reset.as_slice());
        assert(buff@ =~= old(buff)@ + self@.rendering());
    }
}

/// A press of `b` inside the region is reported by the first `pressed(b)`
/// and not by a second one made with no event in between.
pub proof fn lemma_press_reported_once(v: ButtonView, b: MouseButton, x: u16, y: u16)
    requires
        in_region(v.c1, v.c2, (x, y)),
    ensures
        v.step(MouseInput::Press(b, x, y)).pressed == Some(b),
        v.step(MouseInput::Press(b, x, y)).take_press().pressed != Some(b),
{
}

/// After a press inside the region and a release outside it, no button is
/// reported released and no button is held.
pub proof fn lemma_release_outside(
    v: ButtonView,
    b: MouseButton,
    x: u16,
    y: u16,
    rx: u16,
    ry: u16,
    any: MouseButton,
)
    requires
        in_region(v.c1, v.c2, (x, y)),
        !in_region(v.c1, v.c2, (rx, ry)),
    ensures
        v.step(MouseInput::Press(b, x, y)).step(MouseInput::Release(rx, ry)).released != Some(
            any,
        ),
        v.step(MouseInput::Press(b, x, y)).step(MouseInput::Release(rx, ry)).held != Some(any),
{
}

/// After a press of `b` and a release both inside the region, `released(b)`
/// is true once and then false, and `b` is no longer held.
pub proof fn lemma_release_inside(v: ButtonView, b: MouseButton, x: u16, y: u16, rx: u16, ry: u16)
    requires
        in_region(v.c1, v.c2, (x, y)),
        in_region(v.c1, v.c2, (rx, ry)),
    ensures
        v.step(MouseInput::Press(b, x, y)).step(MouseInput::Release(rx, ry)).released == Some(b),
        v.step(MouseInput::Press(b, x, y)).step(MouseInput::Release(rx, ry)).take_release().released
            != Some(b),
        v.step(MouseInput::Press(b, x, y)).step(MouseInput::Release(rx, ry)).held != Some(b),
        v.step(MouseInput::Press(b, x, y)).step(MouseInput::Release(rx, ry)).take_release().held
            != Some(b),
{
}

/// After a press of `a` inside the region, asking `pressed(b)` for another
/// button `b` is false and consumes the press, so `pressed(a)` is then false.
pub proof fn lemma_press_consumed_by_other(
    v: ButtonView,
    a: MouseButton,
    b: MouseButton,
    x: u16,
    y: u16,
)
    requires
        in_region(v.c1, v.c2, (x, y)),
        a != b,
    ensures
        v.step(MouseInput::Press(a, x, y)).pressed != Some(b),
        v.step(MouseInput::Press(a, x, y)).take_press().pressed != Some(a),
{
}

} // verus!
