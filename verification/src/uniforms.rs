//! The per-frame uniform record, modelled over exact values.
//!
//! The GPU consumes the record as a block of floats; the logic that fills
//! it only ever produces ratios of pixel counts, so the record is kept
//! here in exact form: sizes in whole pixels, elapsed time in whole
//! microseconds, and each pointer coordinate as a fraction of integers.
//! The frame driver converts the exact record to the float layout the
//! shader reads, right before upload.

use vstd::prelude::*;

verus! {

/// An exact fraction `num / den`.  The pointer's normalized device
/// coordinates are always such fractions: the denominator is a viewport
/// dimension and is positive whenever the fraction was produced by a
/// pointer update.
#[derive(Clone, Copy, Debug, PartialEq, Eq, Structural)]
pub struct Frac {
    pub num: i64,
    pub den: i64,
}

impl Frac {
    /// The fraction denoting zero.
    pub fn zero() -> (r: Frac)
        ensures
            r == Frac::zero_spec(),
    {
        Frac { num: 0, den: 1 }
    }

    pub open spec fn zero_spec() -> Frac {
        Frac { num: 0, den: 1 }
    }

    /// A well-formed fraction has a positive denominator.
    pub open spec fn wf(self) -> bool {
        self.den > 0
    }

    /// Whether the fraction denotes exactly the integer `k`.
    pub open spec fn is_int(self, k: int) -> bool {
        self.den > 0 && self.num == k * self.den
    }
}

/// The uniform record handed to the fragment program each frame:
/// drawable size, elapsed time, and the pointer position in normalized
/// device coordinates.
#[derive(Clone, Copy, Debug, PartialEq, Eq, Structural)]
pub struct Uniforms {
    /// Drawable width in pixels.
    pub width: u32,
    /// Drawable height in pixels.
    pub height: u32,
    /// Time since startup, in microseconds.
    pub elapsed_micros: u64,
    /// Pointer x in normalized device coordinates, -1 at the left edge,
    /// +1 at the right edge.
    pub pointer_x: Frac,
    /// Pointer y in normalized device coordinates, +1 at the top edge,
    /// -1 at the bottom edge.
    pub pointer_y: Frac,
    /// Reserved third pointer component; always zero.
    pub pointer_z: Frac,
}

impl Uniforms {
    /// The record at startup: the initial drawable size, no elapsed
    /// time, pointer at the exact center.
    pub open spec fn initial_spec(width: u32, height: u32) -> Uniforms {
        Uniforms {
            width,
            height,
            elapsed_micros: 0,
            pointer_x: Frac::zero_spec(),
            pointer_y: Frac::zero_spec(),
            pointer_z: Frac::zero_spec(),
        }
    }

    pub fn initial(width: u32, height: u32) -> (r: Uniforms)
        ensures
            r == Uniforms::initial_spec(width, height),
    {
        Uniforms {
            width,
            height,
            elapsed_micros: 0,
            pointer_x: Frac::zero(),
            pointer_y: Frac::zero(),
            pointer_z: Frac::zero(),
        }
    }

    /// Every fraction in the record has a positive denominator.
    pub open spec fn wf(self) -> bool {
        self.pointer_x.wf() && self.pointer_y.wf() && self.pointer_z.wf()
    }
}

/// The pointer's normalized x coordinate for position `px` in a
/// viewport `view_w` pixels wide: exactly `(2 px - w) / w`, which is
/// `(px / w) * 2 - 1`.
pub open spec fn ndc_x(px: u32, view_w: u32) -> Frac {
    Frac { num: (2 * (px as int) - (view_w as int)) as i64, den: view_w as i64 }
}

/// The pointer's normalized y coordinate for position `py` in a
/// viewport `view_h` pixels tall: exactly `(h - 2 py) / h`, which is
/// `-(py / h) * 2 + 1`.
pub open spec fn ndc_y(py: u32, view_h: u32) -> Frac {
    Frac { num: ((view_h as int) - 2 * (py as int)) as i64, den: view_h as i64 }
}

/// The normalized pointer coordinates are the exact fractions of the
/// mapping rule: the casts in their definitions lose nothing, since
/// both numerators lie well inside the 64-bit range.
pub proof fn lemma_ndc_exact(px: u32, py: u32, view_w: u32, view_h: u32)
    requires
        view_w > 0,
        view_h > 0,
    ensures
        ndc_x(px, view_w).num == 2 * (px as int) - (view_w as int),
        ndc_x(px, view_w).den == view_w as int,
        ndc_x(px, view_w).wf(),
        ndc_y(py, view_h).num == (view_h as int) - 2 * (py as int),
        ndc_y(py, view_h).den == view_h as int,
        ndc_y(py, view_h).wf(),
{
}

/// In every viewport with even dimensions, the pointer mapping lands on
/// exact integers at the landmarks: the top-left corner maps to
/// `(-1, 1)`, the bottom-right corner to `(1, -1)`, and the center to
/// `(0, 0)`.
pub proof fn lemma_ndc_landmarks(view_w: u32, view_h: u32)
    requires
        view_w > 0,
        view_h > 0,
        view_w % 2 == 0,
        view_h % 2 == 0,
    ensures
        ndc_x(0, view_w).is_int(-1),
        ndc_y(0, view_h).is_int(1),
        ndc_x(view_w, view_w).is_int(1),
        ndc_y(view_h, view_h).is_int(-1),
        ndc_x(view_w / 2, view_w).is_int(0),
        ndc_y(view_h / 2, view_h).is_int(0),
{
}

} // verus!
