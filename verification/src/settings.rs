//! The settings model: toggle modes, weapon categories and their per-category
//! tables, grenade metadata, and the default values of the configuration.

use vstd::prelude::*;
use vstd::string::*;
use crate::text::{lex_le, lex_le_str, lemma_lex_total, lemma_lex_trans};

verus! {

/// How a feature reacts to its hot key.
#[derive(Clone, Copy, Debug, PartialEq, Eq, Structural, PartialOrd)]
pub enum KeyToggleMode {
    AlwaysOn,
    Toggle,
    Trigger,
    TriggerInverted,
    Off,
}

impl KeyToggleMode {
    /// The label shown in the settings menu.
    pub fn display_name(&self) -> (r: &'static str)
        ensures
            r@ == match *self {
                KeyToggleMode::AlwaysOn => "On"@,
                KeyToggleMode::Toggle => "Toggle"@,
                KeyToggleMode::Trigger => "Hold"@,
                KeyToggleMode::TriggerInverted => "Hold Inverted"@,
                KeyToggleMode::Off => "Off"@,
            },
    {
        match self {
            KeyToggleMode::AlwaysOn => "On",
            KeyToggleMode::Toggle => "Toggle",
            KeyToggleMode::Trigger => "Hold",
            KeyToggleMode::TriggerInverted => "Hold Inverted",
            KeyToggleMode::Off => "Off",
        }
    }

    /// The abbreviation shown in the watermark.
    pub fn short_name(&self) -> (r: &'static str)
        ensures
            r@ == match *self {
                KeyToggleMode::AlwaysOn => "ON"@,
                KeyToggleMode::Toggle => "T"@,
                KeyToggleMode::Trigger => "H"@,
                KeyToggleMode::TriggerInverted => "HI"@,
                KeyToggleMode::Off => "OFF"@,
            },
    {
        match self {
            KeyToggleMode::AlwaysOn => "ON",
            KeyToggleMode::Toggle => "T",
            KeyToggleMode::Trigger => "H",
            KeyToggleMode::TriggerInverted => "HI",
            KeyToggleMode::Off => "OFF",
        }
    }
}

/// The weapon groups that carry their own trigger bot and recoil settings.
#[derive(Clone, Copy, Debug, PartialEq, Eq, Structural, PartialOrd, Ord)]
pub enum TriggerBotWeaponCategory {
    Pistol,
    Deagle,
    Shotgun,
    Rifle,
    SMG,
    SSG08,
    AWP,
    Other,
}

/// Weapons that have a category of their own regardless of their type flags.
#[derive(Clone, Copy, Debug, PartialEq, Eq, Structural)]
pub enum SpecialWeapon {
    Deagle,
    Ssg08,
    Awp,
    Regular,
}

/// What the weapon logic reads of a game weapon: its identity where it is one
/// of the special weapons, and its type flags.
#[derive(Clone, Copy, Debug, PartialEq, Eq, Structural)]
pub struct WeaponTraits {
    pub special: SpecialWeapon,
    pub pistol: bool,
    pub shotgun: bool,
    pub smg: bool,
    pub rifle: bool,
    pub machine_gun: bool,
    pub sniper_rifle: bool,
}

/// The category of a weapon: the special weapons first, then the type flags in
/// the order pistol, shotgun, SMG, rifle or machine gun; anything else is `Other`.
pub open spec fn weapon_category(w: WeaponTraits) -> TriggerBotWeaponCategory {
    match w.special {
        SpecialWeapon::Deagle => TriggerBotWeaponCategory::Deagle,
        SpecialWeapon::Ssg08 => TriggerBotWeaponCategory::SSG08,
        SpecialWeapon::Awp => TriggerBotWeaponCategory::AWP,
        SpecialWeapon::Regular => if w.pistol {
            TriggerBotWeaponCategory::Pistol
        } else if w.shotgun {
            TriggerBotWeaponCategory::Shotgun
        } else if w.smg {
            TriggerBotWeaponCategory::SMG
        } else if w.rifle || w.machine_gun {
            TriggerBotWeaponCategory::Rifle
        } else {
            TriggerBotWeaponCategory::Other
        },
    }
}

/// Which category a weapon falls in, told by its traits: the Deagle, the SSG 08
/// and the AWP have their own categories; any other weapon is a pistol,
/// shotgun or SMG by the first of those type flags it carries, else a rifle
/// when it carries the rifle or the machine gun flag, else `Other`. Whether a
/// weapon is a sniper rifle plays no part.
pub proof fn law_weapon_category_by_traits(w: WeaponTraits)
    ensures
        (weapon_category(w) == TriggerBotWeaponCategory::Deagle) == (w.special == SpecialWeapon::Deagle),
        (weapon_category(w) == TriggerBotWeaponCategory::SSG08) == (w.special == SpecialWeapon::Ssg08),
        (weapon_category(w) == TriggerBotWeaponCategory::AWP) == (w.special == SpecialWeapon::Awp),
        (weapon_category(w) == TriggerBotWeaponCategory::Pistol) == (w.special == SpecialWeapon::Regular
            && w.pistol),
        (weapon_category(w) == TriggerBotWeaponCategory::Shotgun) == (w.special == SpecialWeapon::Regular
            && !w.pistol && w.shotgun),
        (weapon_category(w) == TriggerBotWeaponCategory::SMG) == (w.special == SpecialWeapon::Regular
            && !w.pistol && !w.shotgun && w.smg),
        (weapon_category(w) == TriggerBotWeaponCategory::Rifle) == (w.special == SpecialWeapon::Regular
            && !w.pistol && !w.shotgun && !w.smg && (w.rifle || w.machine_gun)),
        (weapon_category(w) == TriggerBotWeaponCategory::Other) == (w.special == SpecialWeapon::Regular
            && !w.pistol && !w.shotgun && !w.smg && !w.rifle && !w.machine_gun),
        weapon_category(w) == weapon_category(WeaponTraits { sniper_rifle: !w.sniper_rifle, ..w }),
{
}

/// The number of weapon categories.
pub const CATEGORY_COUNT: usize = 8;

impl TriggerBotWeaponCategory {
    /// Position of the category in `all()`.
    pub open spec fn index(self) -> int {
        match self {
            TriggerBotWeaponCategory::Pistol => 0,
            TriggerBotWeaponCategory::Deagle => 1,
            TriggerBotWeaponCategory::Shotgun => 2,
            TriggerBotWeaponCategory::Rifle => 3,
            TriggerBotWeaponCategory::SMG => 4,
            TriggerBotWeaponCategory::SSG08 => 5,
            TriggerBotWeaponCategory::AWP => 6,
            TriggerBotWeaponCategory::Other => 7,
        }
    }

    /// Every category, in declaration order.
    pub open spec fn all_spec() -> Seq<TriggerBotWeaponCategory> {
        seq![
            TriggerBotWeaponCategory::Pistol,
            TriggerBotWeaponCategory::Deagle,
            TriggerBotWeaponCategory::Shotgun,
            TriggerBotWeaponCategory::Rifle,
            TriggerBotWeaponCategory::SMG,
            TriggerBotWeaponCategory::SSG08,
            TriggerBotWeaponCategory::AWP,
            TriggerBotWeaponCategory::Other,
        ]
    }

    /// Every category, in declaration order.
    pub fn all() -> (r: [Self; 8])
        ensures
            r@ == Self::all_spec(),
    {
        let r = [
            Self::Pistol,
            Self::Deagle,
            Self::Shotgun,
            Self::Rifle,
            Self::SMG,
            Self::SSG08,
            Self::AWP,
            Self::Other,
        ];
        assert(r@ =~= Self::all_spec());
        r
    }

    /// The position of the category in `all()`.
    pub fn slot(&self) -> (r: usize)
        ensures
            r as int == self.index(),
            r < CATEGORY_COUNT,
    {
        match self {
            Self::Pistol => 0,
            Self::Deagle => 1,
            Self::Shotgun => 2,
            Self::Rifle => 3,
            Self::SMG => 4,
            Self::SSG08 => 5,
            Self::AWP => 6,
            Self::Other => 7,
        }
    }

    /// The label shown in the settings menu.
    pub fn display_name(&self) -> (r: &'static str)
        ensures
            r@ == match *self {
                TriggerBotWeaponCategory::Pistol => "Pistols"@,
                TriggerBotWeaponCategory::Deagle => "Deagle"@,
                TriggerBotWeaponCategory::Shotgun => "Shotguns"@,
                TriggerBotWeaponCategory::Rifle => "Rifles"@,
                TriggerBotWeaponCategory::SMG => "SMGs"@,
                TriggerBotWeaponCategory::SSG08 => "SSG 08"@,
                TriggerBotWeaponCategory::AWP => "AWP"@,
                TriggerBotWeaponCategory::Other => "Other"@,
            },
    {
        match self {
            Self::Pistol => "Pistols",
            Self::Deagle => "Deagle",
            Self::Shotgun => "Shotguns",
            Self::Rifle => "Rifles",
            Self::SMG => "SMGs",
            Self::SSG08 => "SSG 08",
            Self::AWP => "AWP",
            Self::Other => "Other",
        }
    }

    /// The category whose settings apply to the given weapon.
    pub fn from_weapon(weapon: WeaponTraits) -> (r: Self)
        ensures
            r == weapon_category(weapon),
    {
        match weapon.special {
            SpecialWeapon::Deagle => Self::Deagle,
            SpecialWeapon::Ssg08 => Self::SSG08,
            SpecialWeapon::Awp => Self::AWP,
            SpecialWeapon::Regular => {
                if weapon.pistol {
                    Self::Pistol
                } else if weapon.shotgun {
                    Self::Shotgun
                } else if weapon.smg {
                    Self::SMG
                } else if weapon.rifle || weapon.machine_gun {
                    Self::Rifle
                } else {
                    Self::Other
                }
            },
        }
    }
}

/// Trigger bot settings of one weapon category.
#[derive(Clone, Copy, Debug)]
pub struct TriggerBotWeaponSettings {
    pub enabled: bool,
    pub delay_min: u32,
    pub delay_max: u32,
    pub shot_duration: u32,
}

impl Default for TriggerBotWeaponSettings {
    fn default() -> (r: Self)
        ensures
            r.enabled,
            r.delay_min == 10,
            r.delay_max == 20,
            r.shot_duration == 400,
    {
        Self { enabled: true, delay_min: 10, delay_max: 20, shot_duration: 400 }
    }
}

impl TriggerBotWeaponSettings {
    /// The settings after the delay sliders moved: the smaller of the two
    /// delays becomes the minimum and the larger the maximum.
    pub fn with_ordered_delays(self) -> (r: Self)
        ensures
            r.delay_min == (if self.delay_min <= self.delay_max { self.delay_min } else { self.delay_max }),
            r.delay_max == (if self.delay_min <= self.delay_max { self.delay_max } else { self.delay_min }),
            r.enabled == self.enabled,
            r.shot_duration == self.shot_duration,
    {
        if self.delay_min <= self.delay_max {
            self
        } else {
            TriggerBotWeaponSettings { delay_min: self.delay_max, delay_max: self.delay_min, ..self }
        }
    }
}

/// One value per weapon category, where the configuration has one.
pub struct CategoryTable<V> {
    entries: Vec<Option<V>>,
}

impl<V> CategoryTable<V> {
    #[verifier::type_invariant]
    spec fn well_formed(self) -> bool {
        self.entries@.len() == CATEGORY_COUNT
    }

    /// The value stored for a category, if any.
    pub closed spec fn lookup(self, category: TriggerBotWeaponCategory) -> Option<V> {
        self.entries@[category.index()]
    }

    /// A table without any entry.
    pub fn new() -> (r: Self)
        ensures
            forall|c: TriggerBotWeaponCategory| r.lookup(c) is None,
    {
        let mut entries: Vec<Option<V>> = Vec::new();
        let mut i: usize = 0;
        while i < CATEGORY_COUNT
            invariant
                i <= CATEGORY_COUNT,
                entries@.len() == i,
                forall|k: int| 0 <= k < i ==> entries@[k] is None,
            decreases CATEGORY_COUNT - i,
        {
            entries.push(None);
            i = i + 1;
        }
        CategoryTable { entries }
    }

    /// The table with the value of one category set and the others as they were.
    pub fn with_entry(self, category: TriggerBotWeaponCategory, value: V) -> (r: Self)
        ensures
            r.lookup(category) == Some(value),
            forall|c: TriggerBotWeaponCategory| c != category ==> r.lookup(c) == self.lookup(c),
    {
        proof {
            use_type_invariant(&self);
        }
        let slot = category.slot();
        let mut entries = self.entries;
        entries.set(slot, Some(value));
        let r = CategoryTable { entries };
        proof {
            assert forall|c: TriggerBotWeaponCategory| c != category implies r.lookup(c)
                == self.lookup(c) by {
                assert(c.index() != category.index());
            }
        }
        r
    }

    /// The value of a category, if the table has one.
    pub fn get(&self, category: TriggerBotWeaponCategory) -> (r: Option<&V>)
        ensures
            match r {
                Some(v) => self.lookup(category) == Some(*v),
                None => self.lookup(category) is None,
            },
    {
        proof {
            use_type_invariant(self);
        }
        match &self.entries[category.slot()] {
            Some(v) => Some(v),
            None => None,
        }
    }

    /// The value of a category, falling back to the value of `Other` where the
    /// category has none.
    pub fn get_or_other(&self, category: TriggerBotWeaponCategory) -> (r: &V)
        requires
            self.lookup(category) is Some || self.lookup(TriggerBotWeaponCategory::Other) is Some,
        ensures
            *r == (if self.lookup(category) is Some {
                self.lookup(category)->0
            } else {
                self.lookup(TriggerBotWeaponCategory::Other)->0
            }),
    {
        match self.get(category) {
            Some(v) => v,
            None => self.get(TriggerBotWeaponCategory::Other).unwrap(),
        }
    }
}

impl<V: Copy> CategoryTable<V> {
    /// A table that holds the same value for every category.
    pub fn filled(value: V) -> (r: Self)
        ensures
            forall|c: TriggerBotWeaponCategory| r.lookup(c) == Some(value),
    {
        let mut entries: Vec<Option<V>> = Vec::new();
        let mut i: usize = 0;
        while i < CATEGORY_COUNT
            invariant
                i <= CATEGORY_COUNT,
                entries@.len() == i,
                forall|k: int| 0 <= k < i ==> entries@[k] == Some(value),
            decreases CATEGORY_COUNT - i,
        {
            entries.push(Some(value));
            i = i + 1;
        }
        CategoryTable { entries }
    }
}

/// The kinds of grenades a grenade spot can be used for.
#[derive(Debug, Clone, Copy, PartialEq, Eq, Structural)]
pub enum GrenadeType {
    Smoke,
    Molotov,
    Flashbang,
    Explosive,
}

impl GrenadeType {
    /// The label shown in the grenade helper.
    pub fn display_name(&self) -> (r: &'static str)
        ensures
            r@ == match *self {
                GrenadeType::Smoke => "Smoke"@,
                GrenadeType::Molotov => "Molotov"@,
                GrenadeType::Flashbang => "Flashbang"@,
                GrenadeType::Explosive => "Explosive"@,
            },
    {
        match self {
            Self::Smoke => "Smoke",
            Self::Molotov => "Molotov",
            Self::Flashbang => "Flashbang",
            Self::Explosive => "Explosive",
        }
    }
}

/// Ticks or unticks a grenade type of a spot: a listed type is taken out
/// (its first entry), an unlisted one is appended.
pub fn toggle_grenade_type(types: &mut Vec<GrenadeType>, t: GrenadeType)
    ensures
        old(types)@.contains(t) ==> exists|p: int|
            0 <= p < old(types)@.len() && old(types)@[p] == t && (forall|k: int| 0 <= k < p ==> old(types)@[k] != t)
                && final(types)@ == old(types)@.remove(p),
        !old(types)@.contains(t) ==> final(types)@ == old(types)@.push(t),
{
    let n = types.len();
    let mut i: usize = 0;
    while i < n
        invariant
            types@ == old(types)@,
            n == types@.len(),
            i <= n,
            forall|k: int| 0 <= k < i ==> types@[k] != t,
        decreases n - i,
    {
        if types[i] == t {
            let ghost before = types@;
            types.remove(i);
            proof {
                assert(before[i as int] == t);
            }
            return;
        }
        i = i + 1;
    }
    types.push(t);
}

/// The order in which the grenade helper lists the spots of a map.
#[derive(Debug, Clone, Copy, PartialEq, Eq, Structural)]
pub enum GrenadeSortOrder {
    Alphabetical,
    AlphabeticalReverse,
}

/// The key of the entry that `index` refers to.
pub open spec fn name_key(names: Seq<String>, index: usize) -> Seq<char> {
    names[index as int]@
}

/// Whether a list of references into `names` is sorted in `order`.
pub open spec fn sorted_by_name(order: GrenadeSortOrder, names: Seq<String>, values: Seq<usize>) -> bool {
    forall|i: int, j: int|
        0 <= i < j < values.len() ==> #[trigger] order.in_order(
            name_key(names, values[i]),
            name_key(names, values[j]),
        )
}

/// Every reference points into `names`.
pub open spec fn refers_into(names: Seq<String>, values: Seq<usize>) -> bool {
    forall|i: int| 0 <= i < values.len() ==> #[trigger] values[i] < names.len()
}

impl GrenadeSortOrder {
    /// The order used where the configuration names none.
    pub fn default() -> (r: Self)
        ensures
            r == GrenadeSortOrder::Alphabetical,
    {
        Self::Alphabetical
    }

    /// Whether a name `a` may come before a name `b` in this order.
    pub open spec fn in_order(self, a: Seq<char>, b: Seq<char>) -> bool {
        match self {
            GrenadeSortOrder::Alphabetical => lex_le(a, b),
            GrenadeSortOrder::AlphabeticalReverse => lex_le(b, a),
        }
    }

    proof fn lemma_in_order_total(self, a: Seq<char>, b: Seq<char>)
        ensures
            self.in_order(a, b) || self.in_order(b, a),
    {
        lemma_lex_total(a, b);
    }

    proof fn lemma_in_order_trans(self, a: Seq<char>, b: Seq<char>, c: Seq<char>)
        requires
            self.in_order(a, b),
            self.in_order(b, c),
        ensures
            self.in_order(a, c),
    {
        match self {
            GrenadeSortOrder::Alphabetical => lemma_lex_trans(a, b, c),
            GrenadeSortOrder::AlphabeticalReverse => lemma_lex_trans(c, b, a),
        }
    }

    fn in_order_exec(&self, a: &String, b: &String) -> (r: bool)
        ensures
            r == self.in_order(a@, b@),
    {
        match self {
            Self::Alphabetical => lex_le_str(a.as_str(), b.as_str()),
            Self::AlphabeticalReverse => lex_le_str(b.as_str(), a.as_str()),
        }
    }

    /// Sorts references to grenade spots by the spots' names: `values` holds
    /// indices into `names`. Entries with equal names may come in any order.
    pub fn sort(&self, names: &Vec<String>, values: &mut Vec<usize>)
        requires
            refers_into(names@, old(values)@),
        ensures
            final(values)@.to_multiset() == old(values)@.to_multiset(),
            refers_into(names@, final(values)@),
            sorted_by_name(*self, names@, final(values)@),
    {
        let ghost input = values@;
        let mut result: Vec<usize> = Vec::new();
        let n = values.len();
        let mut i: usize = 0;
        assert(input.take(0) =~= result@);
        while i < n
            invariant
                n == values@.len(),
                values@ == input,
                i <= n,
                refers_into(names@, input),
                refers_into(names@, result@),
                result@.to_multiset() == input.take(i as int).to_multiset(),
                sorted_by_name(*self, names@, result@),
            decreases n - i,
        {
            let x = values[i];
            let mut p: usize = 0;
            while p < result.len()
                invariant
                    p <= result@.len(),
                    x < names@.len(),
                    refers_into(names@, result@),
                    forall|k: int|
                        0 <= k < p ==> self.in_order(
                            name_key(names@, #[trigger] result@[k]),
                            name_key(names@, x),
                        ),
                ensures
                    p <= result@.len(),
                    forall|k: int|
                        0 <= k < p ==> self.in_order(
                            name_key(names@, #[trigger] result@[k]),
                            name_key(names@, x),
                        ),
                    p < result@.len() ==> !self.in_order(
                        name_key(names@, result@[p as int]),
                        name_key(names@, x),
                    ),
                decreases result@.len() - p,
            {
                if !self.in_order_exec(&names[result[p]], &names[x]) {
                    break;
                }
                p = p + 1;
            }
            proof {
                if p < result@.len() {
                    self.lemma_in_order_total(
                        name_key(names@, result@[p as int]),
                        name_key(names@, x),
                    );
                }
                assert forall|k: int| p <= k < result@.len() implies self.in_order(
                    name_key(names@, x),
                    name_key(names@, #[trigger] result@[k]),
                ) by {
                    if k > p {
                        assert(self.in_order(
                            name_key(names@, result@[p as int]),
                            name_key(names@, result@[k]),
                        ));
                        self.lemma_in_order_trans(
                            name_key(names@, x),
                            name_key(names@, result@[p as int]),
                            name_key(names@, result@[k]),
                        );
                    }
                }
            }
            let ghost before = result@;
            result.insert(p, x);
            proof {
                assert(result@ == before.insert(p as int, x));
                assert forall|a: int, b: int| 0 <= a < b < result@.len() implies #[trigger] self.in_order(
                    name_key(names@, result@[a]),
                    name_key(names@, result@[b]),
                ) by {
                    if a < p && b == p {
                    } else if a < p && b > p {
                        assert(result@[b] == before[b - 1]);
                        self.lemma_in_order_trans(
                            name_key(names@, before[a]),
                            name_key(names@, x),
                            name_key(names@, before[b - 1]),
                        );
                    } else if a < p {
                        assert(self.in_order(name_key(names@, before[a]), name_key(names@, before[b])));
                    } else if a == p {
                        assert(result@[b] == before[b - 1]);
                    } else {
                        assert(result@[a] == before[a - 1]);
                        assert(result@[b] == before[b - 1]);
                        assert(self.in_order(name_key(names@, before[a - 1]), name_key(names@, before[b - 1])));
                    }
                }
                assert(input.take(i + 1) =~= input.take(i as int).push(x));
                vstd::seq_lib::to_multiset_insert(before, p as int, x);
                vstd::seq_lib::to_multiset_build(input.take(i as int), x);
                assert(input.take(i as int).push(x).to_multiset()
                    == input.take(i as int).to_multiset().insert(x));
            }
            i = i + 1;
        }
        proof {
            assert(input.take(n as int) =~= input);
        }
        *values = result;
    }
}

/// Default for flags that start enabled.
pub fn bool_true() -> (r: bool)
    ensures
        r,
{
    true
}

/// Default for flags that start disabled.
pub fn bool_false() -> (r: bool)
    ensures
        !r,
{
    false
}

/// Default for an unsigned setting, given as a constant.
pub fn default_u32<const V: u32>() -> (r: u32)
    ensures
        r == V,
{
    V
}

/// Default for a signed setting, given as a non-negative constant.
pub fn default_i32<const V: u32>() -> (r: i32)
    requires
        V <= i32::MAX,
    ensures
        r == V,
{
    V as i32
}

/// Default for a size setting, given as a constant.
pub fn default_usize<const V: usize>() -> (r: usize)
    ensures
        r == V,
{
    V
}

/// Default for a color setting, as its RGBA channels.
pub fn default_color<const R: u8, const G: u8, const B: u8, const A: u8>() -> (r: [u8; 4])
    ensures
        r@ == seq![R, G, B, A],
{
    let r = [R, G, B, A];
    assert(r@ =~= seq![R, G, B, A]);
    r
}

/// Default for an optional hot key: none.
pub fn default_key_none<K>() -> (r: Option<K>)
    ensures
        r is None,
{
    None
}

/// The ESP starts always on.
pub fn default_esp_mode() -> (r: KeyToggleMode)
    ensures
        r == KeyToggleMode::AlwaysOn,
{
    KeyToggleMode::AlwaysOn
}

/// The trigger bot starts in hold mode.
pub fn default_trigger_bot_mode() -> (r: KeyToggleMode)
    ensures
        r == KeyToggleMode::Trigger,
{
    KeyToggleMode::Trigger
}

/// Recoil control starts off.
pub fn default_rcs_mode() -> (r: KeyToggleMode)
    ensures
        r == KeyToggleMode::Off,
{
    KeyToggleMode::Off
}

/// The default trigger bot settings for every weapon category.
pub fn default_trigger_bot_weapon_settings() -> (r: CategoryTable<TriggerBotWeaponSettings>)
    ensures
        forall|c: TriggerBotWeaponCategory| #[trigger] r.lookup(c) is Some && {
            let s = r.lookup(c)->0;
            s.enabled && s.delay_min == 10 && s.delay_max == 20 && s.shot_duration == 400
        },
{
    CategoryTable::filled(TriggerBotWeaponSettings::default())
}

/// The ESP targets enabled by default: the enemy players.
pub fn default_esp_configs_enabled() -> (r: Vec<(String, bool)>)
    ensures
        r@.len() == 1,
        r@[0].0@ == "player.enemy"@,
        r@[0].1,
{
    let mut r: Vec<(String, bool)> = Vec::new();
    r.push((String::from_str("player.enemy"), true));
    r
}

} // verus!
