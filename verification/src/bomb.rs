//! What the bomb timer panel and the bomb labels show.

use vstd::prelude::*;
use vstd::string::*;
use crate::text::str_equal;

verus! {

/// The phase of the planted bomb.
#[derive(Clone, Copy, Debug, PartialEq, Eq, Structural)]
pub enum PlantedC4Phase {
    NotPlanted,
    Active,
    Defused,
    Detonated,
}

/// The letter of the bomb site: site 0 is `A`, every other is `B`.
pub fn bomb_site_name(bomb_site: u8) -> (r: &'static str)
    ensures
        r@ == (if bomb_site == 0 {
            "A"@
        } else {
            "B"@
        }),
{
    if bomb_site == 0 {
        "A"
    } else {
        "B"
    }
}

/// The heading of the bomb timer panel.
pub fn bomb_site_heading(bomb_site: u8) -> (r: String)
    ensures
        r@ == "C4  /  SITE "@ + (if bomb_site == 0 {
            "A"@
        } else {
            "B"@
        }),
{
    let mut r = String::from_str("C4  /  SITE ");
    r.append(bomb_site_name(bomb_site));
    r
}

/// Whether the bomb timer panel is shown.
pub fn bomb_panel_visible(bomb_timer: bool, phase: PlantedC4Phase) -> (r: bool)
    ensures
        r == (bomb_timer && phase != PlantedC4Phase::NotPlanted),
{
    bomb_timer && !matches!(phase, PlantedC4Phase::NotPlanted)
}

/// The fixed status line of the panel; `None` where the line shows a
/// countdown or a defuse in progress instead.
pub fn bomb_status_message(phase: PlantedC4Phase, defusing: bool) -> (r: Option<&'static str>)
    ensures
        match phase {
            PlantedC4Phase::Active => if defusing {
                r is None
            } else {
                r matches Some(m) && m@ == "Not defusing"@
            },
            PlantedC4Phase::Defused => r matches Some(m) && m@ == "Bomb has been defused"@,
            PlantedC4Phase::Detonated => r matches Some(m) && m@ == "Bomb has been detonated"@,
            PlantedC4Phase::NotPlanted => r is None,
        },
{
    match phase {
        PlantedC4Phase::Active => if defusing {
            None
        } else {
            Some("Not defusing")
        },
        PlantedC4Phase::Defused => Some("Bomb has been defused"),
        PlantedC4Phase::Detonated => Some("Bomb has been detonated"),
        PlantedC4Phase::NotPlanted => None,
    }
}

/// The label drawn over planted and dropped bombs.
pub struct BombLabelIndicator {}

impl BombLabelIndicator {
    /// A bomb label indicator.
    pub fn new() -> (r: Self) {
        Self {  }
    }

    /// Whether the planted bomb gets a label.
    pub fn labels_planted(&self, bomb_label: bool, phase: PlantedC4Phase) -> (r: bool)
        ensures
            r == (bomb_label && phase != PlantedC4Phase::NotPlanted),
    {
        bomb_label && !matches!(phase, PlantedC4Phase::NotPlanted)
    }

    /// Whether the entities are searched for a dropped bomb: only while nobody
    /// carries it.
    pub fn searches_dropped(&self, bomb_label: bool, carrier_present: bool) -> (r: bool)
        ensures
            r == (bomb_label && !carrier_present),
    {
        bomb_label && !carrier_present
    }

    /// Whether an entity is a bomb lying on the ground: its class is `C_C4`
    /// and it is not planted.
    pub fn is_dropped_bomb(&self, class_name: Option<&str>, planted: bool) -> (r: bool)
        ensures
            r == ((class_name matches Some(n) && n@ == "C_C4"@) && !planted),
    {
        let is_c4 = match class_name {
            Some(n) => str_equal(n, "C_C4"),
            None => false,
        };
        is_c4 && !planted
    }
}

} // verus!
