//! Player ESP logic: which configuration applies to a player, which players
//! are drawn, and the text lines placed around a player's box.

use vstd::prelude::*;
use vstd::string::*;
use crate::text::{decimal, join, join_strings, lemma_join_starts_with_first, to_decimal, views};

verus! {

/// Where an info line is placed around a player's box.
#[derive(Clone, Copy, Debug, PartialEq, Eq, Structural)]
pub enum EspInfoPosition {
    Left,
    Right,
    Top,
    Bottom,
}

impl EspInfoPosition {
    /// The index of the position's line counter.
    pub open spec fn index(self) -> int {
        match self {
            EspInfoPosition::Left => 0,
            EspInfoPosition::Right => 1,
            EspInfoPosition::Top => 2,
            EspInfoPosition::Bottom => 3,
        }
    }

    /// The index of the position's line counter.
    pub fn slot(&self) -> (r: usize)
        ensures
            r as int == self.index(),
    {
        match self {
            EspInfoPosition::Left => 0,
            EspInfoPosition::Right => 1,
            EspInfoPosition::Top => 2,
            EspInfoPosition::Bottom => 3,
        }
    }
}

/// How many lines have been placed at each side of one player's box.
pub struct InfoLineCounter {
    pub line_counts: [usize; 4],
}

impl InfoLineCounter {
    /// No line placed yet.
    pub fn new() -> (r: Self)
        ensures
            forall|i: int| 0 <= i < 4 ==> r.line_counts@[i] == 0,
    {
        InfoLineCounter { line_counts: [0, 0, 0, 0] }
    }

    /// Places one more line at `position` and returns the number of lines
    /// that were already there, which selects the line's row.
    pub fn next_line(&mut self, position: EspInfoPosition) -> (r: usize)
        requires
            old(self).line_counts@[position.index()] < usize::MAX,
        ensures
            r == old(self).line_counts@[position.index()],
            final(self).line_counts@ == old(self).line_counts@.update(position.index(), (r + 1) as usize),
    {
        let slot = position.slot();
        let r = self.line_counts[slot];
        self.line_counts[slot] = r + 1;
        r
    }
}

/// What the ESP knows of one selector on the path from the most specific one
/// to the root: whether it is enabled and whether its configuration is a
/// player configuration.
#[derive(Clone, Copy, Debug, PartialEq, Eq, Structural)]
pub struct SelectorStatus {
    pub enabled: bool,
    pub has_player_config: bool,
}

/// Whether a selector's configuration can be used for a player.
pub open spec fn usable(s: SelectorStatus) -> bool {
    s.enabled && s.has_player_config
}

/// The position on the selector path whose configuration applies to a player:
/// the first selector that is enabled and has a player configuration.
pub fn resolve_player_config(path: &Vec<SelectorStatus>) -> (r: Option<usize>)
    ensures
        match r {
            Some(i) => i < path@.len() && usable(path@[i as int]) && forall|k: int|
                0 <= k < i ==> !usable(#[trigger] path@[k]),
            None => forall|k: int| 0 <= k < path@.len() ==> !usable(#[trigger] path@[k]),
        },
{
    let n = path.len();
    let mut i: usize = 0;
    while i < n
        invariant
            n == path@.len(),
            i <= n,
            forall|k: int| 0 <= k < i ==> !usable(#[trigger] path@[k]),
        decreases n - i,
    {
        if path[i].enabled && path[i].has_player_config {
            return Some(i);
        }
        i = i + 1;
    }
    None
}

/// What the settings view of a player selector does with the configuration
/// stored under the selector's key.
#[derive(Debug, Clone, Copy, PartialEq, Eq, Structural)]
pub enum PlayerConfigAction {
    /// A player configuration is stored: it is edited.
    Keep,
    /// A configuration of another kind is stored: a fresh player
    /// configuration takes its place.
    Replace,
    /// Nothing is stored: a fresh player configuration is inserted.
    Insert,
}

/// The action for the configuration stored under a player selector's key:
/// `stored` is `None` where nothing is stored, else whether the stored
/// configuration is a player configuration.
pub fn player_config_action(stored: Option<bool>) -> (r: PlayerConfigAction)
    ensures
        r == match stored {
            None => PlayerConfigAction::Insert,
            Some(true) => PlayerConfigAction::Keep,
            Some(false) => PlayerConfigAction::Replace,
        },
{
    match stored {
        None => PlayerConfigAction::Insert,
        Some(true) => PlayerConfigAction::Keep,
        Some(false) => PlayerConfigAction::Replace,
    }
}

/// Whether a selector is covered: enabled itself, or some ancestor is.
pub fn parent_enabled(target_enabled: bool, ancestors_enabled: &Vec<bool>) -> (r: bool)
    ensures
        r == (target_enabled || exists|k: int|
            0 <= k < ancestors_enabled@.len() && #[trigger] ancestors_enabled@[k]),
{
    if target_enabled {
        return true;
    }
    let n = ancestors_enabled.len();
    let mut i: usize = 0;
    while i < n
        invariant
            n == ancestors_enabled@.len(),
            i <= n,
            forall|k: int| 0 <= k < i ==> !#[trigger] ancestors_enabled@[k],
        decreases n - i,
    {
        if ancestors_enabled[i] {
            return true;
        }
        i = i + 1;
    }
    false
}

/// Whether a player belongs to the other team.
pub fn is_enemy(target_team: u8, local_team: u8) -> (r: bool)
    ensures
        r == (target_team != local_team),
{
    target_team != local_team
}

/// Whether a living player pawn is drawn: it has health left and a name.
pub fn esp_player_drawable(health: i32, has_name: bool) -> (r: bool)
    ensures
        r == (health > 0 && has_name),
{
    health > 0 && has_name
}

/// The utility part names shown for a player, in display order.
pub open spec fn utility_parts(
    flashbangs: i32,
    smoke: bool,
    he_grenade: bool,
    molotov: bool,
    incendiary: bool,
    decoy: bool,
) -> Seq<Seq<char>> {
    let p0: Seq<Seq<char>> = if flashbangs > 0 {
        seq!["Flashbang x"@ + decimal(flashbangs as nat)]
    } else {
        Seq::empty()
    };
    let p1 = if smoke { p0.push("Smoke"@) } else { p0 };
    let p2 = if he_grenade { p1.push("HE Grenade"@) } else { p1 };
    let p3 = if molotov { p2.push("Molotov"@) } else { p2 };
    let p4 = if incendiary { p3.push("Incendiary"@) } else { p3 };
    if decoy { p4.push("Decoy"@) } else { p4 }
}

/// The flag part names shown for a player, in display order.
pub open spec fn flag_parts(kit: bool, bomb: bool, scoped: bool, flashed: bool) -> Seq<Seq<char>> {
    let p0: Seq<Seq<char>> = if kit { seq!["Kit"@] } else { Seq::empty() };
    let p1 = if bomb { p0.push("Bomb Carrier"@) } else { p0 };
    let p2 = if scoped { p1.push("scoped"@) } else { p1 };
    if flashed { p2.push("flashed"@) } else { p2 }
}

/// The line that lists a player's utilities, or `None` where there is none.
pub fn utility_line(
    flashbangs: i32,
    smoke: bool,
    he_grenade: bool,
    molotov: bool,
    incendiary: bool,
    decoy: bool,
) -> (r: Option<String>)
    ensures
        ({
            let parts = utility_parts(flashbangs, smoke, he_grenade, molotov, incendiary, decoy);
            match r {
                Some(s) => parts.len() > 0 && s@ == join(parts, ", "@),
                None => parts.len() == 0,
            }
        }),
{
    let mut parts: Vec<String> = Vec::new();
    if flashbangs > 0 {
        let mut s = String::from_str("Flashbang x");
        s.append(to_decimal(flashbangs as u64).as_str());
        parts.push(s);
    }
    if smoke {
        parts.push(String::from_str("Smoke"));
    }
    if he_grenade {
        parts.push(String::from_str("HE Grenade"));
    }
    if molotov {
        parts.push(String::from_str("Molotov"));
    }
    if incendiary {
        parts.push(String::from_str("Incendiary"));
    }
    if decoy {
        parts.push(String::from_str("Decoy"));
    }
    proof {
        assert(views(parts@) =~= utility_parts(
            flashbangs,
            smoke,
            he_grenade,
            molotov,
            incendiary,
            decoy,
        ));
    }
    if parts.len() == 0 {
        None
    } else {
        Some(join_strings(&parts, ", "))
    }
}

/// The line that lists a player's flags, or `None` where there is none.
pub fn flags_line(kit: bool, bomb: bool, scoped: bool, flashed: bool) -> (r: Option<String>)
    ensures
        ({
            let parts = flag_parts(kit, bomb, scoped, flashed);
            match r {
                Some(s) => parts.len() > 0 && s@ == join(parts, ", "@),
                None => parts.len() == 0,
            }
        }),
{
    let mut parts: Vec<String> = Vec::new();
    if kit {
        parts.push(String::from_str("Kit"));
    }
    if bomb {
        parts.push(String::from_str("Bomb Carrier"));
    }
    if scoped {
        parts.push(String::from_str("scoped"));
    }
    if flashed {
        parts.push(String::from_str("flashed"));
    }
    proof {
        assert(views(parts@) =~= flag_parts(kit, bomb, scoped, flashed));
    }
    if parts.len() == 0 {
        None
    } else {
        Some(join_strings(&parts, ", "))
    }
}

/// The count of one flag, as 0 or 1.
pub open spec fn one_if(b: bool) -> int {
    if b {
        1
    } else {
        0
    }
}

/// A player with at least one flashbang gets it listed first, with its count,
/// and the line starts with it; each utility the player carries adds one
/// entry to the line, and a player without any has no line.
pub proof fn law_utility_line_lists_flashbangs_first(
    flashbangs: i32,
    smoke: bool,
    he_grenade: bool,
    molotov: bool,
    incendiary: bool,
    decoy: bool,
)
    ensures
        ({
            let parts = utility_parts(flashbangs, smoke, he_grenade, molotov, incendiary, decoy);
            &&& parts.len() == one_if(flashbangs > 0) + one_if(smoke) + one_if(he_grenade) + one_if(molotov)
                + one_if(incendiary) + one_if(decoy)
            &&& flashbangs > 0 ==> parts[0] == "Flashbang x"@ + decimal(flashbangs as nat)
                && ("Flashbang x"@ + decimal(flashbangs as nat)).is_prefix_of(join(parts, ", "@))
        }),
{
    let parts = utility_parts(flashbangs, smoke, he_grenade, molotov, incendiary, decoy);
    if flashbangs > 0 {
        lemma_join_starts_with_first(parts, ", "@);
    }
}

/// Each flag that holds adds one entry to the flags line, in the order kit,
/// bomb carrier, scoped, flashed; a player with the kit has it listed first.
pub proof fn law_flags_line_entries(kit: bool, bomb: bool, scoped: bool, flashed: bool)
    ensures
        ({
            let parts = flag_parts(kit, bomb, scoped, flashed);
            &&& parts.len() == one_if(kit) + one_if(bomb) + one_if(scoped) + one_if(flashed)
            &&& kit ==> parts[0] == "Kit"@ && "Kit"@.is_prefix_of(join(parts, ", "@))
            &&& flashed ==> parts.last() == "flashed"@
        }),
{
    let parts = flag_parts(kit, bomb, scoped, flashed);
    if kit {
        lemma_join_starts_with_first(parts, ", "@);
    }
}

} // verus!
