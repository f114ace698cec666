//! Moving through the pictures of a directory, and turning them.

use vstd::prelude::*;
use vstd::arithmetic::div_mod::{lemma_fundamental_div_mod, lemma_fundamental_div_mod_converse};

verus! {

/// `ext` is the extension of a file that is listed as a picture.
pub open spec fn is_image_extension_text(ext: Seq<char>) -> bool {
    ||| ext == "jpg"@
    ||| ext == "jpeg"@
    ||| ext == "png"@
    ||| ext == "gif"@
    ||| ext == "webp"@
    ||| ext == "avif"@
    ||| ext == "tiff"@
    ||| ext == "bmp"@
}

fn same_text(a: &str, b: &str) -> (same: bool)
    ensures
        same <==> a@ == b@,
{
    a.to_owned() == b.to_owned()
}

/// Whether a file with the extension `ext`, written without its dot, is
/// listed as a picture. Letter case counts.
pub fn is_image_extension(ext: &str) -> (listed: bool)
    ensures
        listed <==> is_image_extension_text(ext@),
{
    same_text(ext, "jpg") || same_text(ext, "jpeg") || same_text(ext, "png") || same_text(
        ext,
        "gif",
    ) || same_text(ext, "webp") || same_text(ext, "avif") || same_text(ext, "tiff") || same_text(
        ext,
        "bmp",
    )
}

/// The place after `current` among `len` pictures, the first one following the last.
pub open spec fn place_after(current: int, len: int) -> int {
    (current + 1) % len
}

/// The place before `current` among `len` pictures, the last one preceding the first.
pub open spec fn place_before(current: int, len: int) -> int {
    (current + len - 1) % len
}

/// Stepping forward and then back, or back and then forward, returns to the
/// place one started from.
pub proof fn lemma_there_and_back(current: int, len: int)
    requires
        0 <= current < len,
    ensures
        0 <= place_after(current, len) < len,
        0 <= place_before(current, len) < len,
        place_before(place_after(current, len), len) == current,
        place_after(place_before(current, len), len) == current,
{
    if current + 1 == len {
        lemma_fundamental_div_mod_converse(current + 1, len, 1, 0);
        lemma_fundamental_div_mod_converse(len - 1, len, 0, len - 1);
    } else {
        lemma_fundamental_div_mod_converse(current + 1, len, 0, current + 1);
        lemma_fundamental_div_mod_converse(current + len, len, 1, current);
    }
    if current == 0 {
        lemma_fundamental_div_mod_converse(len - 1, len, 0, len - 1);
        lemma_fundamental_div_mod_converse(len, len, 1, 0);
    } else {
        lemma_fundamental_div_mod_converse(current + len - 1, len, 1, current - 1);
        lemma_fundamental_div_mod_converse(current, len, 0, current);
    }
}

/// The place of the picture to show after the one at `current`, among `len`
/// pictures; `None` where there are no pictures.
pub fn next_index(current: usize, len: usize) -> (next: Option<usize>)
    ensures
        len == 0 ==> next is None,
        len > 0 ==> next == Some(place_after(current as int, len as int) as usize),
        next matches Some(i) ==> i < len,
{
    if len == 0 {
        return None;
    }
    let here: usize = current % len;
    proof {
        let q = current as int / len as int;
        lemma_fundamental_div_mod(current as int, len as int);
        assert(q * len == len * q) by (nonlinear_arith);
        if here + 1 == len {
            assert((q + 1) * len == q * len + len) by (nonlinear_arith);
            lemma_fundamental_div_mod_converse(current + 1, len as int, q + 1, 0);
        } else {
            lemma_fundamental_div_mod_converse(current + 1, len as int, q, here + 1);
        }
    }
    if here + 1 == len {
        Some(0)
    } else {
        Some(here + 1)
    }
}

/// The place of the picture to show before the one at `current`, among `len`
/// pictures; `None` where there are no pictures.
pub fn prev_index(current: usize, len: usize) -> (prev: Option<usize>)
    ensures
        len == 0 ==> prev is None,
        len > 0 ==> prev == Some(place_before(current as int, len as int) as usize),
        prev matches Some(i) ==> i < len,
{
    if len == 0 {
        return None;
    }
    let here: usize = current % len;
    proof {
        let q = current as int / len as int;
        lemma_fundamental_div_mod(current as int, len as int);
        assert(q * len == len * q) by (nonlinear_arith);
        if here == 0 {
            lemma_fundamental_div_mod_converse(current + len - 1, len as int, q, len - 1);
        } else {
            assert((q + 1) * len == q * len + len) by (nonlinear_arith);
            lemma_fundamental_div_mod_converse(current + len - 1, len as int, q + 1, here - 1);
        }
    }
    if here == 0 {
        Some(len - 1)
    } else {
        Some(here - 1)
    }
}

/// How a picture is turned before it is shown.
#[derive(Clone, Copy, Debug, PartialEq, Eq, Structural)]
pub enum QuarterTurn {
    /// As it is.
    Upright,
    /// A quarter turn to the right.
    Clockwise,
    /// A half turn.
    Upsidedown,
    /// A quarter turn to the left.
    Counterclockwise,
}

/// The turn that stands for a rotation of `degrees`: a quarter turn to the
/// right for 90, a half turn for 180, a quarter turn to the left for 270, and
/// none for anything else.
pub open spec fn turn_of(degrees: int) -> QuarterTurn {
    if degrees == 90 {
        QuarterTurn::Clockwise
    } else if degrees == 180 {
        QuarterTurn::Upsidedown
    } else if degrees == 270 {
        QuarterTurn::Counterclockwise
    } else {
        QuarterTurn::Upright
    }
}

/// The turn that stands for a rotation of `degrees`.
pub fn quarter_turn(degrees: i32) -> (turn: QuarterTurn)
    ensures
        turn == turn_of(degrees as int),
{
    if degrees == 90 {
        QuarterTurn::Clockwise
    } else if degrees == 180 {
        QuarterTurn::Upsidedown
    } else if degrees == 270 {
        QuarterTurn::Counterclockwise
    } else {
        QuarterTurn::Upright
    }
}

/// What is left of `x` after whole multiples of `d` are taken away, with the
/// sign of `x`: the remainder of a division that rounds toward zero.
pub open spec fn rem_toward_zero(x: int, d: int) -> int {
    if x >= 0 {
        x % d
    } else {
        -((-x) % d)
    }
}

/// A rotation of `degrees` turned by `by` more, less the full turns in it.
pub open spec fn turned(degrees: int, by: int) -> int {
    rem_toward_zero(degrees + by, 360)
}

/// A rotation of `degrees`, turned a quarter to the right.
pub fn rotate_cw(degrees: i32) -> (rotation: i32)
    requires
        degrees + 90 <= i32::MAX,
    ensures
        rotation == turned(degrees as int, 90),
{
    (degrees + 90) % 360
}

/// A rotation of `degrees`, turned a quarter to the left.
pub fn rotate_ccw(degrees: i32) -> (rotation: i32)
    requires
        degrees + 270 <= i32::MAX,
    ensures
        rotation == turned(degrees as int, 270),
{
    (degrees + 270) % 360
}

/// Within one full turn, a turn stays within it; a quarter turn one way
/// undoes a quarter turn the other way; and four quarter turns the same way
/// make a full turn.
pub proof fn lemma_quarter_turns(degrees: int)
    requires
        0 <= degrees < 360,
    ensures
        0 <= turned(degrees, 90) < 360,
        0 <= turned(degrees, 270) < 360,
        turned(turned(degrees, 90), 270) == degrees,
        turned(turned(degrees, 270), 90) == degrees,
        turned(turned(turned(turned(degrees, 90), 90), 90), 90) == degrees,
        turned(turned(turned(turned(degrees, 270), 270), 270), 270) == degrees,
{
}

} // verus!
