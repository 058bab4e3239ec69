//! The six shapes the waveshaper offers, as a menu.
//!
//! The transfer functions themselves are floating point and live with the
//! signal path; what is here is the menu: the order, the names and the
//! mapping between a parameter's value and a curve. The order is the
//! parameter's value, so it is stable API: appending is safe, reordering is
//! not.

use vstd::prelude::*;

verus! {

/// Names of the curves, in menu order.
pub const CURVE_NAMES: [&'static str; 6] = ["Warm", "Round", "Soft", "Clip", "Fold", "Gate"];

/// Which shape the waveshaper is using.
#[derive(Clone, Copy, PartialEq, Eq, Debug, Structural)]
pub enum Curve {
    /// `(2/π)·atan(πx/2)`. The softest.
    Warm,
    /// `x/√(1+x²)`.
    Round,
    /// `tanh x`, the default.
    Soft,
    /// A quadratic-knee soft clipper, hard at knee zero.
    Clip,
    /// `sin x`, a wavefolder.
    Fold,
    /// `2·tanh x − tanh 2x`, flat near the origin.
    Gate,
}

/// The number of curves on the menu.
pub open spec fn curve_count() -> nat {
    6
}

/// The curve at menu position `i`, for `i` below [`curve_count`].
pub open spec fn curve_at(i: int) -> Curve {
    if i == 0 {
        Curve::Warm
    } else if i == 1 {
        Curve::Round
    } else if i == 2 {
        Curve::Soft
    } else if i == 3 {
        Curve::Clip
    } else if i == 4 {
        Curve::Fold
    } else {
        Curve::Gate
    }
}

/// A curve's position on the menu.
pub open spec fn curve_position(c: Curve) -> nat {
    match c {
        Curve::Warm => 0,
        Curve::Round => 1,
        Curve::Soft => 2,
        Curve::Clip => 3,
        Curve::Fold => 4,
        Curve::Gate => 5,
    }
}

/// The curve a parameter value selects: its menu entry, or the default
/// beyond the end of the menu.
pub open spec fn curve_for_value(i: int) -> Curve {
    if 0 <= i < curve_count() {
        curve_at(i)
    } else {
        Curve::Soft
    }
}

/// The panel name of a curve.
pub open spec fn curve_name(c: Curve) -> Seq<char> {
    match c {
        Curve::Warm => "Warm"@,
        Curve::Round => "Round"@,
        Curve::Soft => "Soft"@,
        Curve::Clip => "Clip"@,
        Curve::Fold => "Fold"@,
        Curve::Gate => "Gate"@,
    }
}

impl Default for Curve {
    /// `Soft`, which is what most people mean by saturation.
    fn default() -> (c: Self)
        ensures
            c == Curve::Soft,
    {
        Curve::Soft
    }
}

impl Curve {
    /// Every curve, in menu order.
    pub const ALL: [Curve; 6] = [
        Curve::Warm,
        Curve::Round,
        Curve::Soft,
        Curve::Clip,
        Curve::Fold,
        Curve::Gate,
    ];

    /// From the parameter's value; out of range falls back to the default.
    pub fn from_index(i: usize) -> (c: Self)
        ensures
            c == curve_for_value(i as int),
    {
        match i {
            0 => Curve::Warm,
            1 => Curve::Round,
            2 => Curve::Soft,
            3 => Curve::Clip,
            4 => Curve::Fold,
            5 => Curve::Gate,
            _ => Curve::Soft,
        }
    }

    /// The menu index, which is the parameter's value.
    pub fn index(self) -> (i: usize)
        ensures
            i == curve_position(self),
            i < curve_count(),
    {
        match self {
            Curve::Warm => 0,
            Curve::Round => 1,
            Curve::Soft => 2,
            Curve::Clip => 3,
            Curve::Fold => 4,
            Curve::Gate => 5,
        }
    }

    /// The panel name.
    pub fn name(self) -> (n: &'static str)
        ensures
            n@ == curve_name(self),
    {
        match self {
            Curve::Warm => "Warm",
            Curve::Round => "Round",
            Curve::Soft => "Soft",
            Curve::Clip => "Clip",
            Curve::Fold => "Fold",
            Curve::Gate => "Gate",
        }
    }
}

/// A curve's index is a value that selects the curve back: the menu index
/// and the parameter value are the same thing.
pub proof fn lemma_index_selects_the_curve(c: Curve)
    ensures
        curve_for_value(curve_position(c) as int) == c,
        curve_position(c) < curve_count(),
{
}

/// Every value on the menu selects the curve at that position, and that
/// curve's index is the value again; so no two values on the menu select
/// the same curve.
pub proof fn lemma_value_round_trips(i: int)
    requires
        0 <= i < curve_count(),
    ensures
        curve_position(curve_for_value(i)) == i,
{
}

/// The table of names agrees with each curve's own name, position by
/// position.
pub proof fn lemma_names_follow_the_menu(c: Curve)
    ensures
        CURVE_NAMES@[curve_position(c) as int]@ == curve_name(c),
{
}

} // verus!
