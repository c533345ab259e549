//! Which parts of the crosshair overlay are drawn.

use vstd::prelude::*;
use crate::settings::WeaponTraits;

verus! {

/// The crosshair overlay: a configurable crosshair, or a dot while a sniper
/// rifle is held.
pub struct SniperCrosshair;

/// What the overlay draws before looking at the weapon.
#[derive(Clone, Copy, Debug, PartialEq, Eq, Structural)]
pub enum CrosshairMode {
    /// Nothing.
    Hidden,
    /// The configured crosshair, whatever the weapon.
    Always,
    /// The dot, if the watched player holds a sniper rifle.
    SniperOnly,
}

/// The parts of the configured crosshair that are drawn.
#[derive(Clone, Copy, Debug)]
pub struct CrosshairParts {
    /// The left, right, top and bottom lines, in that order.
    pub lines: [bool; 4],
    pub center_dot: bool,
    /// The small dot drawn for sniper rifles.
    pub sniper_dot: bool,
    /// Whether every drawn line and the centre dot get a dark outline.
    pub outline: bool,
}

impl SniperCrosshair {
    /// A crosshair overlay.
    pub fn new() -> (r: Self) {
        SniperCrosshair
    }

    /// Whether a weapon is a sniper rifle; `None` stands for an item id that
    /// names no known weapon.
    pub fn is_sniper_weapon(&self, weapon: Option<WeaponTraits>) -> (r: bool)
        ensures
            r == (weapon matches Some(w) && w.sniper_rifle),
    {
        match weapon {
            Some(w) => w.sniper_rifle,
            None => false,
        }
    }

    /// What is drawn before the weapon is known.
    pub fn mode(&self, crosshair: bool, sniper_crosshair: bool) -> (r: CrosshairMode)
        ensures
            r == (if crosshair {
                CrosshairMode::Always
            } else if sniper_crosshair {
                CrosshairMode::SniperOnly
            } else {
                CrosshairMode::Hidden
            }),
    {
        if crosshair {
            CrosshairMode::Always
        } else if sniper_crosshair {
            CrosshairMode::SniperOnly
        } else {
            CrosshairMode::Hidden
        }
    }

    /// The parts drawn once drawing is decided: the lines when the crosshair
    /// is on and shows lines, except the top one in T style; the centre dot
    /// when the crosshair is on and has one; the sniper dot when it is off.
    pub fn parts(
        &self,
        crosshair: bool,
        lines: bool,
        t_style: bool,
        center_dot: bool,
        outline: bool,
    ) -> (r: CrosshairParts)
        ensures
            r.lines@ == seq![
                crosshair && lines,
                crosshair && lines,
                crosshair && lines && !t_style,
                crosshair && lines,
            ],
            r.center_dot == (crosshair && center_dot),
            r.sniper_dot == !crosshair,
            r.outline == outline,
    {
        let l = crosshair && lines;
        let r = CrosshairParts {
            lines: [l, l, l && !t_style, l],
            center_dot: crosshair && center_dot,
            sniper_dot: !crosshair,
            outline,
        };
        assert(r.lines@ =~= seq![l, l, l && !t_style, l]);
        r
    }
}

/// Which crosshair checkbox the user just clicked.
#[derive(Clone, Copy, Debug, PartialEq, Eq, Structural)]
pub enum CrosshairToggle {
    Crosshair,
    SniperCrosshair,
}

/// The two crosshair settings after a click on one of their checkboxes, which
/// already flipped its own setting: the two exclude each other, so switching
/// one on switches the other off.
pub fn exclusive_crosshairs(clicked: CrosshairToggle, crosshair: bool, sniper_crosshair: bool) -> (r: (bool, bool))
    ensures
        r == match clicked {
            CrosshairToggle::Crosshair => (crosshair, sniper_crosshair && !crosshair),
            CrosshairToggle::SniperCrosshair => (crosshair && !sniper_crosshair, sniper_crosshair),
        },
{
    match clicked {
        CrosshairToggle::Crosshair => (crosshair, sniper_crosshair && !crosshair),
        CrosshairToggle::SniperCrosshair => (crosshair && !sniper_crosshair, sniper_crosshair),
    }
}

} // verus!
