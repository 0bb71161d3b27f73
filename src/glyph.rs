//! Box-drawing glyph tables and the composition of a glyph from the line
//! state of its four arms.
use vstd::prelude::*;

verus! {

/// Light box-drawing glyphs, indexed by a four-bit mask of the arms present.
pub const BOX_THIN: [char; 16] = [
    ' ', '╶', '╴', '─', '╷', '└', '┘', '┴', '╵', '┌', '┐', '┬', '│', '├', '┤', '┼',
];

/// Heavy box-drawing glyphs, indexed by a four-bit mask of the arms present.
pub const BOX_THIC: [char; 16] = [
    ' ', '╺', '╸', '━', '╹', '┗', '┛', '┻', '╻', '┏', '┓', '┳', '┃', '┣', '┫', '╋',
];

/// Mixed light and heavy box-drawing glyphs, indexed by the base-3 number
/// whose digits are the line states of the four arms (see `mix_index`).
pub const BOX_MIX: [char; 81] = [
    ' ', '╶', '╺', '╴', '─', '╼', '╸', '╾', '━',
    '╷', '└', '┕', '┘', '┴', '┶', '┙', '┵', '┷',
    '╹', '┖', '┗', '┚', '┸', '┺', '┛', '┹', '┻',
    '╵', '┌', '┍', '┐', '┬', '┮', '┑', '┭', '┯',
    '│', '├', '┝', '┤', '┼', '┾', '┥', '┽', '┿',
    '╿', '┞', '┡', '┦', '╀', '╄', '┩', '╃', '╇',
    '╻', '┎', '┏', '┒', '┰', '┲', '┓', '┱', '┳',
    '╽', '┟', '┢', '┧', '╁', '╆', '┪', '╅', '╈',
    '┃', '┠', '┣', '┨', '╂', '╊', '┫', '╉', '╋',
];

/// The base-3 digit of one arm: 0 when absent, 1 when light, 2 when heavy.
pub open spec fn arm_digit(arm: Option<bool>) -> nat {
    match arm {
        None => 0,
        Some(false) => 1,
        Some(true) => 2,
    }
}

/// The index into `BOX_MIX` of four arms (right, left, down, up): the sum of
/// each arm's digit times 3 to the power of its position.
pub open spec fn mix_index(dirs: Seq<Option<bool>>) -> nat {
    arm_digit(dirs[0]) + 3 * arm_digit(dirs[1]) + 9 * arm_digit(dirs[2]) + 27 * arm_digit(dirs[3])
}

fn digit_of(arm: Option<bool>) -> (d: usize)
    ensures
        d == arm_digit(arm),
{
    match arm {
        None => 0,
        Some(false) => 1,
        Some(true) => 2,
    }
}

/// The glyph whose four arms (right, left, down, up) are absent (`None`),
/// light (`Some(false)`) or heavy (`Some(true)`).
pub fn box_mix(dirs: [Option<bool>; 4]) -> (c: char)
    ensures
        mix_index(dirs@) < 81,
        c == BOX_MIX@[mix_index(dirs@) as int],
{
    let index = digit_of(dirs[0]) + 3 * digit_of(dirs[1]) + 9 * digit_of(dirs[2]) + 27
        * digit_of(dirs[3]);
    BOX_MIX[index]
}

/// Distinct table positions hold distinct glyphs.
pub proof fn lemma_box_mix_table_distinct()
    ensures
        forall|i: int, j: int| 0 <= i < 81 && 0 <= j < 81 && i != j ==> BOX_MIX@[i] != BOX_MIX@[j],
{
}

/// No two of the 81 arm combinations share a glyph: `box_mix` gives
/// different glyphs for different arms.
pub proof fn lemma_box_mix_injective(a: [Option<bool>; 4], b: [Option<bool>; 4])
    requires
        a@ != b@,
    ensures
        mix_index(a@) < 81,
        mix_index(b@) < 81,
        BOX_MIX@[mix_index(a@) as int] != BOX_MIX@[mix_index(b@) as int],
{
    lemma_box_mix_table_distinct();
    if mix_index(a@) == mix_index(b@) {
        assert forall|i: int| 0 <= i < 4 implies a@[i] == b@[i] by {
            assert(arm_digit(a@[i]) == arm_digit(b@[i]));
        }
        assert(a@ =~= b@);
    }
}

} // verus!
