//! The grenade helper's settings view: its navigation targets, spot ids, the
//! import and export workflow, and lookups in a map's spot list.

use vstd::prelude::*;
use vstd::string::*;
use crate::text::str_equal;

verus! {

/// An entry of the grenade helper's navigation tree.
#[derive(Debug, Clone)]
pub enum GrenadeSettingsTarget {
    General,
    MapType(String),
    GameMap { map_name: String, display_name: String },
}

impl GrenadeSettingsTarget {
    /// The id of the entry in the UI.
    pub fn ui_token(&self) -> (r: String)
        ensures
            r@ == match self {
                GrenadeSettingsTarget::General => "_settings"@,
                GrenadeSettingsTarget::MapType(value) => "map_type_"@ + value@,
                GrenadeSettingsTarget::GameMap { map_name, .. } => "map_"@ + map_name@,
            },
    {
        match self {
            Self::General => String::from_str("_settings"),
            Self::MapType(value) => {
                let mut r = String::from_str("map_type_");
                r.append(value.as_str());
                r
            },
            Self::GameMap { map_name, .. } => {
                let mut r = String::from_str("map_");
                r.append(map_name.as_str());
                r
            },
        }
    }

    /// How deep the entry is indented: maps sit under their map type.
    pub fn ident_level(&self) -> (r: usize)
        ensures
            r == match self {
                GrenadeSettingsTarget::GameMap { .. } => 1usize,
                _ => 0usize,
            },
    {
        match self {
            Self::General => 0,
            Self::MapType(_) => 0,
            Self::GameMap { .. } => 1,
        }
    }

    /// Whether two entries are the same.
    pub fn same_as(&self, other: &Self) -> (r: bool)
        ensures
            r == match (self, other) {
                (GrenadeSettingsTarget::General, GrenadeSettingsTarget::General) => true,
                (GrenadeSettingsTarget::MapType(a), GrenadeSettingsTarget::MapType(b)) => a@ == b@,
                (
                    GrenadeSettingsTarget::GameMap { map_name: a, display_name: da },
                    GrenadeSettingsTarget::GameMap { map_name: b, display_name: db },
                ) => a@ == b@ && da@ == db@,
                _ => false,
            },
    {
        match (self, other) {
            (Self::General, Self::General) => true,
            (Self::MapType(a), Self::MapType(b)) => str_equal(a.as_str(), b.as_str()),
            (
                Self::GameMap { map_name: a, display_name: da },
                Self::GameMap { map_name: b, display_name: db },
            ) => str_equal(a.as_str(), b.as_str()) && str_equal(da.as_str(), db.as_str()),
            _ => false,
        }
    }

    /// Whether clicking the entry selects it: map type headings only group maps.
    pub fn selectable(&self) -> (r: bool)
        ensures
            r == !(self is MapType),
    {
        match self {
            Self::MapType(_) => false,
            _ => true,
        }
    }
}

/// Hands out the ids of grenade spots, counting up from 1.
pub struct SpotIdCounter {
    pub next: usize,
}

impl SpotIdCounter {
    /// The first id handed out is 1.
    pub fn new() -> (r: Self)
        ensures
            r.next == 1,
    {
        SpotIdCounter { next: 1 }
    }

    /// A fresh id; the counter wraps around at the end of `usize`.
    pub fn new_id(&mut self) -> (r: usize)
        ensures
            (*final(self), r) == spot_counter_next(*old(self)),
    {
        let r = self.next;
        self.next = self.next.wrapping_add(1);
        r
    }
}

/// The counter after handing out an id, and the id.
pub open spec fn spot_counter_next(c: SpotIdCounter) -> (SpotIdCounter, usize) {
    (
        SpotIdCounter {
            next: if c.next == usize::MAX {
                0
            } else {
                (c.next + 1) as usize
            },
        },
        c.next,
    )
}

/// Ids handed out one after another increase, until the counter wraps around.
pub proof fn law_spot_ids_increase(c: SpotIdCounter)
    requires
        c.next < usize::MAX,
    ensures
        ({
            let (c1, a) = spot_counter_next(c);
            let (_, b) = spot_counter_next(c1);
            a < b
        }),
{
}

/// The counter after `n` ids were handed out.
pub open spec fn counter_after(c: SpotIdCounter, n: nat) -> SpotIdCounter
    decreases n,
{
    if n == 0 {
        c
    } else {
        spot_counter_next(counter_after(c, (n - 1) as nat)).0
    }
}

/// The id that the call after `n` earlier calls hands out.
pub open spec fn id_at(c: SpotIdCounter, n: nat) -> usize {
    spot_counter_next(counter_after(c, n)).1
}

proof fn lemma_counter_after(c: SpotIdCounter, n: nat)
    requires
        c.next + n <= usize::MAX,
    ensures
        counter_after(c, n).next == c.next + n,
    decreases n,
{
    if n > 0 {
        lemma_counter_after(c, (n - 1) as nat);
    }
}

/// Every id handed out is at least 1, and no two calls hand out the same id:
/// a later call hands out a larger one. This holds from a counter at 1 or
/// more until the counter reaches the end of `usize`.
pub proof fn law_spot_ids_unique(c: SpotIdCounter, i: nat, j: nat)
    requires
        c.next >= 1,
        i < j,
        c.next + j <= usize::MAX,
    ensures
        id_at(c, i) >= 1,
        id_at(c, i) < id_at(c, j),
{
    lemma_counter_after(c, i);
    lemma_counter_after(c, j);
}

/// The spots that a list of per-map entries holds for the map named `m`: the
/// spot lists of its entries with that name, one after another.
pub open spec fn spots_of<T>(list: Seq<(String, Vec<T>)>, m: Seq<char>) -> Seq<T>
    decreases list.len(),
{
    if list.len() == 0 {
        Seq::empty()
    } else {
        let rest = spots_of(list.drop_last(), m);
        if list.last().0@ == m {
            rest + list.last().1@
        } else {
            rest
        }
    }
}

/// Whether a list of per-map entries has an entry for the map named `m`.
pub open spec fn lists_map<T>(list: Seq<(String, Vec<T>)>, m: Seq<char>) -> bool {
    exists|i: int| 0 <= i < list.len() && (#[trigger] list[i]).0@ == m
}

/// No map has two entries: the list is a map from map names to spot lists.
pub open spec fn keys_unique<T>(list: Seq<(String, Vec<T>)>) -> bool {
    forall|i: int, j: int| 0 <= i < j < list.len() ==> (#[trigger] list[i]).0@ != (#[trigger] list[j]).0@
}

/// The number of spots in a list of per-map entries.
pub open spec fn total_spots<T>(list: Seq<(String, Vec<T>)>) -> int
    decreases list.len(),
{
    if list.len() == 0 {
        0
    } else {
        total_spots(list.drop_last()) + list.last().1@.len()
    }
}

proof fn lemma_total_spots_prefix<T>(list: Seq<(String, Vec<T>)>, i: int)
    requires
        0 <= i <= list.len(),
    ensures
        0 <= total_spots(list.take(i)) <= total_spots(list),
    decreases list.len() - i,
{
    if i < list.len() {
        lemma_total_spots_prefix(list, i + 1);
        assert(list.take(i + 1).drop_last() =~= list.take(i));
    } else {
        assert(list.take(i) =~= list);
    }
    lemma_total_spots_nonneg(list.take(i));
}

proof fn lemma_total_spots_nonneg<T>(list: Seq<(String, Vec<T>)>)
    ensures
        total_spots(list) >= 0,
    decreases list.len(),
{
    if list.len() > 0 {
        lemma_total_spots_nonneg(list.drop_last());
    }
}

proof fn lemma_spots_of_absent<T>(list: Seq<(String, Vec<T>)>, m: Seq<char>)
    requires
        !lists_map(list, m),
    ensures
        spots_of(list, m) =~= Seq::<T>::empty(),
    decreases list.len(),
{
    if list.len() > 0 {
        let last = list.len() - 1;
        assert(list[last] == list.last());
        assert forall|i: int| 0 <= i < list.drop_last().len() implies (#[trigger] list.drop_last()[i]).0@ != m by {
            assert(list.drop_last()[i] == list[i]);
        }
        lemma_spots_of_absent(list.drop_last(), m);
    }
}

proof fn lemma_spots_of_entry<T>(list: Seq<(String, Vec<T>)>, i: int)
    requires
        keys_unique(list),
        0 <= i < list.len(),
    ensures
        spots_of(list, list[i].0@) =~= list[i].1@,
    decreases list.len(),
{
    let key = list[i].0@;
    let rest = list.drop_last();
    assert(keys_unique(rest)) by {
        assert forall|a: int, b: int| 0 <= a < b < rest.len() implies (#[trigger] rest[a]).0@ != (#[trigger] rest[b]).0@ by {
            assert(rest[a] == list[a] && rest[b] == list[b]);
        }
    }
    if i == list.len() - 1 {
        assert forall|j: int| 0 <= j < rest.len() implies (#[trigger] rest[j]).0@ != key by {
            assert(rest[j] == list[j]);
        }
        lemma_spots_of_absent(rest, key);
    } else {
        assert(rest[i] == list[i]);
        assert(list[list.len() - 1] == list.last());
        lemma_spots_of_entry(rest, i);
    }
}

proof fn lemma_spots_of_update_other<T>(list: Seq<(String, Vec<T>)>, i: int, e: (String, Vec<T>), m: Seq<char>)
    requires
        0 <= i < list.len(),
        e.0@ == list[i].0@,
        m != e.0@,
    ensures
        spots_of(list.update(i, e), m) == spots_of(list, m),
    decreases list.len(),
{
    let upd = list.update(i, e);
    if i == list.len() - 1 {
        assert(upd.drop_last() =~= list.drop_last());
        assert(list[list.len() - 1] == list.last());
    } else {
        assert(upd.drop_last() =~= list.drop_last().update(i, e));
        assert(upd.last() == list.last());
        assert(list.drop_last()[i] == list[i]);
        lemma_spots_of_update_other(list.drop_last(), i, e, m);
    }
}

/// The number of spots in a list of per-map entries, or `None` where it does
/// not fit in `usize`.
pub fn spot_total<T>(list: &Vec<(String, Vec<T>)>) -> (r: Option<usize>)
    ensures
        match r {
            Some(t) => t == total_spots(list@),
            None => total_spots(list@) > usize::MAX,
        },
{
    let n = list.len();
    let mut total: usize = 0;
    let mut i: usize = 0;
    while i < n
        invariant
            n == list@.len(),
            i <= n,
            total == total_spots(list@.take(i as int)),
        decreases n - i,
    {
        proof {
            assert(list@.take(i + 1).drop_last() =~= list@.take(i as int));
            assert(list@.take(i + 1).last() == list@[i as int]);
        }
        let len = list[i].1.len();
        match total.checked_add(len) {
            Some(t) => {
                total = t;
            },
            None => {
                proof {
                    lemma_total_spots_prefix(list@, i + 1);
                }
                return None;
            },
        }
        i = i + 1;
    }
    proof {
        assert(list@.take(n as int) =~= list@);
    }
    Some(total)
}

/// The position of the entry for the map named `name`.
fn entry_position<T>(list: &Vec<(String, Vec<T>)>, name: &str) -> (r: Option<usize>)
    ensures
        match r {
            Some(i) => i < list@.len() && list@[i as int].0@ == name@,
            None => !lists_map(list@, name@),
        },
{
    let n = list.len();
    let mut i: usize = 0;
    while i < n
        invariant
            n == list@.len(),
            i <= n,
            forall|k: int| 0 <= k < i ==> (#[trigger] list@[k]).0@ != name@,
        decreases n - i,
    {
        if str_equal(list[i].0.as_str(), name) {
            return Some(i);
        }
        i = i + 1;
    }
    None
}

/// Adds imported spots to the current ones: each map keeps its spots and
/// gets the imported spots for it after them; maps new to the list are added.
pub fn merge_spot_lists<T>(current: Vec<(String, Vec<T>)>, imported: Vec<(String, Vec<T>)>) -> (r: Vec<(String, Vec<T>)>)
    requires
        keys_unique(current@),
    ensures
        keys_unique(r@),
        forall|m: Seq<char>| #[trigger] spots_of(r@, m) == spots_of(current@, m) + spots_of(imported@, m),
        forall|m: Seq<char>| #[trigger] lists_map(r@, m) == (lists_map(current@, m) || lists_map(imported@, m)),
{
    let ghost orig = imported@;
    let mut result = current;
    let mut rest = imported;
    let ghost mut k: int = 0;
    while rest.len() > 0
        invariant
            keys_unique(result@),
            0 <= k <= orig.len(),
            rest@ == orig.skip(k),
            forall|m: Seq<char>| #[trigger] spots_of(result@, m) == spots_of(current@, m) + spots_of(orig.take(k), m),
            forall|m: Seq<char>| #[trigger] lists_map(result@, m) == (lists_map(current@, m) || lists_map(orig.take(k), m)),
        decreases rest.len(),
    {
        let ghost before = result@;
        let ghost entry = orig[k];
        proof {
            assert(rest@[0] == orig.skip(k)[0]);
        }
        let (name, mut spots) = rest.remove(0);
        let ghost added = spots@;
        proof {
            assert(rest@ =~= orig.skip(k + 1));
            assert(orig.take(k + 1).drop_last() =~= orig.take(k));
            assert(orig.take(k + 1).last() == entry);
        }
        match entry_position(&result, name.as_str()) {
            Some(i) => {
                let (existing_name, mut existing) = result.remove(i);
                let ghost old_spots = existing@;
                existing.append(&mut spots);
                result.insert(i, (existing_name, existing));
                proof {
                    let e = result@[i as int];
                    assert(result@ =~= before.update(i as int, e));
                    assert(keys_unique(result@)) by {
                        assert forall|a: int, b: int| 0 <= a < b < result@.len() implies (#[trigger] result@[a]).0@ != (#[trigger] result@[b]).0@ by {
                            if a != i && b != i {
                                assert(result@[a] == before[a] && result@[b] == before[b]);
                            } else if a == i {
                                assert(result@[b] == before[b]);
                            } else {
                                assert(result@[a] == before[a]);
                            }
                        }
                    }
                    lemma_spots_of_entry(before, i as int);
                    lemma_spots_of_entry(result@, i as int);
                    assert forall|m: Seq<char>| #[trigger] spots_of(result@, m) == spots_of(current@, m) + spots_of(orig.take(k + 1), m) by {
                        if m == name@ {
                            assert(spots_of(current@, m) + spots_of(orig.take(k + 1), m) =~= spots_of(current@, m) + spots_of(orig.take(k), m) + added);
                        } else {
                            lemma_spots_of_update_other(before, i as int, e, m);
                        }
                    }
                    assert forall|m: Seq<char>| #[trigger] lists_map(result@, m) == (lists_map(current@, m) || lists_map(orig.take(k + 1), m)) by {
                        if lists_map(before, m) {
                            let j = choose|j: int| 0 <= j < before.len() && (#[trigger] before[j]).0@ == m;
                            assert(result@[j].0@ == m);
                        }
                        if lists_map(result@, m) {
                            let j = choose|j: int| 0 <= j < result@.len() && (#[trigger] result@[j]).0@ == m;
                            assert(before[j].0@ == m);
                        }
                        if lists_map(orig.take(k + 1), m) {
                            let j = choose|j: int| 0 <= j < orig.take(k + 1).len() && (#[trigger] orig.take(k + 1)[j]).0@ == m;
                            if j < k {
                                assert(orig.take(k)[j] == orig.take(k + 1)[j]);
                            } else {
                                assert(before[i as int].0@ == m);
                            }
                        }
                        if lists_map(orig.take(k), m) {
                            let j = choose|j: int| 0 <= j < orig.take(k).len() && (#[trigger] orig.take(k)[j]).0@ == m;
                            assert(orig.take(k + 1)[j] == orig.take(k)[j]);
                        }
                    }
                }
            },
            None => {
                result.push((name, spots));
                proof {
                    assert(result@.drop_last() =~= before);
                    assert(keys_unique(result@)) by {
                        assert forall|a: int, b: int| 0 <= a < b < result@.len() implies (#[trigger] result@[a]).0@ != (#[trigger] result@[b]).0@ by {
                            assert(result@[a] == before[a]);
                            if b < before.len() {
                                assert(result@[b] == before[b]);
                            }
                        }
                    }
                    let last = result@.len() - 1;
                    assert(result@[last].0@ == entry.0@ && result@[last].1@ == added);
                    assert(result@.last() == result@[last]);
                    assert forall|m: Seq<char>| #[trigger] spots_of(result@, m) == spots_of(current@, m) + spots_of(orig.take(k + 1), m) by {
                        assert(spots_of(before, m) == spots_of(current@, m) + spots_of(orig.take(k), m));
                        if m == entry.0@ {
                            assert(spots_of(current@, m) + spots_of(orig.take(k + 1), m) =~= spots_of(current@, m) + spots_of(orig.take(k), m) + added);
                        }
                    }
                    assert forall|m: Seq<char>| #[trigger] lists_map(result@, m) == (lists_map(current@, m) || lists_map(orig.take(k + 1), m)) by {
                        let last = result@.len() - 1;
                        assert(result@[last].0@ == entry.0@);
                        if lists_map(before, m) {
                            let j = choose|j: int| 0 <= j < before.len() && (#[trigger] before[j]).0@ == m;
                            assert(result@[j] == before[j]);
                        }
                        if lists_map(result@, m) {
                            let j = choose|j: int| 0 <= j < result@.len() && (#[trigger] result@[j]).0@ == m;
                            if j < before.len() {
                                assert(before[j] == result@[j]);
                            } else {
                                assert(orig.take(k + 1)[k] == entry);
                            }
                        }
                        if lists_map(orig.take(k + 1), m) {
                            let j = choose|j: int| 0 <= j < orig.take(k + 1).len() && (#[trigger] orig.take(k + 1)[j]).0@ == m;
                            if j < k {
                                assert(orig.take(k)[j] == orig.take(k + 1)[j]);
                            }
                        }
                        if lists_map(orig.take(k), m) {
                            let j = choose|j: int| 0 <= j < orig.take(k).len() && (#[trigger] orig.take(k)[j]).0@ == m;
                            assert(orig.take(k + 1)[j] == orig.take(k)[j]);
                        }
                    }
                }
            },
        }
        proof {
            k = k + 1;
        }
    }
    proof {
        assert(orig.take(k) =~= orig);
    }
    result
}

/// The position of the spot with the given id in a map's spot list.
pub fn position_of_id(ids: &Vec<usize>, id: usize) -> (r: Option<usize>)
    ensures
        match r {
            Some(i) => i < ids@.len() && ids@[i as int] == id && forall|k: int|
                0 <= k < i ==> ids@[k] != id,
            None => forall|k: int| 0 <= k < ids@.len() ==> ids@[k] != id,
        },
{
    let n = ids.len();
    let mut i: usize = 0;
    while i < n
        invariant
            n == ids@.len(),
            i <= n,
            forall|k: int| 0 <= k < i ==> ids@[k] != id,
        decreases n - i,
    {
        if ids[i] == id {
            return Some(i);
        }
        i = i + 1;
    }
    None
}

/// Deletes the spot with the id `id` from a map's spots, where there is one:
/// `ids` holds the ids of `spots`, in the same order. The first spot with the
/// id goes. Returns whether a spot was deleted.
pub fn delete_spot<T>(spots: &mut Vec<T>, ids: &Vec<usize>, id: usize) -> (r: bool)
    requires
        old(spots)@.len() == ids@.len(),
    ensures
        r == ids@.contains(id),
        r ==> exists|p: int|
            0 <= p < ids@.len() && ids@[p] == id && (forall|k: int| 0 <= k < p ==> ids@[k] != id)
                && final(spots)@ == old(spots)@.remove(p),
        !r ==> final(spots)@ == old(spots)@,
{
    match position_of_id(ids, id) {
        Some(p) => {
            spots.remove(p);
            proof {
                assert(ids@[p as int] == id);
            }
            true
        },
        None => false,
    }
}

/// The grenade helper's view applies the navigation requested in the last
/// frame: a new target starts with no spot selected, and a requested spot is
/// selected; either drops a spot being created.
pub fn apply_pending_navigation<T>(
    target: &mut GrenadeSettingsTarget,
    selected_id: &mut usize,
    new_item: &mut Option<T>,
    pending_target: Option<GrenadeSettingsTarget>,
    pending_selected_id: Option<usize>,
)
    ensures
        *final(target) == match pending_target {
            Some(t) => t,
            None => *old(target),
        },
        *final(selected_id) == match pending_selected_id {
            Some(id) => id,
            None => if pending_target is Some {
                0
            } else {
                *old(selected_id)
            },
        },
        *final(new_item) == (if pending_target is Some || pending_selected_id is Some {
            None
        } else {
            *old(new_item)
        }),
{
    if let Some(t) = pending_target {
        *target = t;
        *selected_id = 0;
        *new_item = None;
    }
    if let Some(id) = pending_selected_id {
        *selected_id = id;
        *new_item = None;
    }
}

/// The spot being created is added: it is taken out of the editor together
/// with a fresh id. Returns `None` where no spot is being created.
pub fn take_new_spot<T>(new_item: &mut Option<T>, ids: &mut SpotIdCounter) -> (r: Option<(usize, T)>)
    ensures
        *final(new_item) is None,
        match *old(new_item) {
            Some(spot) => r matches Some((id, taken)) && taken == spot && (*final(ids), id)
                == spot_counter_next(*old(ids)),
            None => r is None && *final(ids) == *old(ids),
        },
{
    match new_item.take() {
        Some(spot) => {
            let id = ids.new_id();
            Some((id, spot))
        },
        None => None,
    }
}

/// Which way grenade spots are transferred.
#[derive(Debug, Clone, Copy, PartialEq, Eq, Structural)]
pub enum GrenadeHelperTransferDirection {
    Export,
    Import,
}

/// The import and export workflow. `T` is a grenade spot, `P` the path of an
/// export. Spots are listed per map: the map's name and its spots.
pub enum GrenadeHelperTransferState<T, P> {
    /// No transfer in progress.
    Idle,
    /// A transfer was requested and its worker is to be started.
    Pending { direction: GrenadeHelperTransferDirection },
    /// The worker runs.
    Active { direction: GrenadeHelperTransferDirection },
    /// The transfer failed.
    Failed { direction: GrenadeHelperTransferDirection, message: String },
    /// Spots were read; the user is asked whether they replace the current
    /// spots or are added to them.
    ImportPending { elements: Vec<(String, Vec<T>)> },
    /// The import is done: `count` spots were imported, replacing the current
    /// spots or added to them.
    ImportSuccess { count: usize, replacing: bool },
    /// The export was written.
    ExportSuccess { target_path: P },
}

/// How a transfer worker ended without an error.
pub enum TransferResult<T, P> {
    /// The user closed the file dialog.
    Cancelled,
    /// The spots of an import were read.
    Loaded { elements: Vec<(String, Vec<T>)> },
    /// The spots were exported.
    Exported { target_path: P },
}

/// Whether the number of spots of a pending import fits in `usize`.
pub open spec fn pending_total_fits<T, P>(s: GrenadeHelperTransferState<T, P>) -> bool {
    match s {
        GrenadeHelperTransferState::ImportPending { elements } => total_spots(elements@) <= usize::MAX,
        _ => true,
    }
}

impl<T, P> GrenadeHelperTransferState<T, P> {
    /// No transfer in progress.
    pub fn new() -> (r: Self)
        ensures
            r is Idle,
    {
        GrenadeHelperTransferState::Idle
    }

    /// The export and import buttons: they only act while no transfer is in
    /// progress. Returns whether the transfer was requested.
    pub fn request(&mut self, direction: GrenadeHelperTransferDirection) -> (r: bool)
        ensures
            r == ((*old(self)) is Idle),
            r ==> *final(self) == (GrenadeHelperTransferState::Pending::<T, P> { direction }),
            !r ==> *final(self) == *old(self),
    {
        match self {
            GrenadeHelperTransferState::Idle => {
                *self = GrenadeHelperTransferState::Pending { direction };
                true
            },
            _ => false,
        }
    }

    /// Starts the worker of a requested transfer: returns its direction and
    /// marks the transfer active.
    pub fn launch(&mut self) -> (r: Option<GrenadeHelperTransferDirection>)
        ensures
            match *old(self) {
                GrenadeHelperTransferState::Pending { direction } => r == Some(direction)
                    && *final(self) == (GrenadeHelperTransferState::Active::<T, P> { direction }),
                _ => r is None && *final(self) == *old(self),
            },
    {
        match self {
            GrenadeHelperTransferState::Pending { direction } => {
                let d = *direction;
                *self = GrenadeHelperTransferState::Active { direction: d };
                Some(d)
            },
            _ => None,
        }
    }

    /// Records how the worker of a transfer in `direction` ended.
    pub fn finish(&mut self, direction: GrenadeHelperTransferDirection, result: Result<TransferResult<T, P>, String>)
        ensures
            match result {
                Ok(TransferResult::Cancelled) => (*final(self)) is Idle,
                Ok(TransferResult::Loaded { elements }) => *final(self) == (GrenadeHelperTransferState::ImportPending::<T, P> { elements }),
                Ok(TransferResult::Exported { target_path }) => *final(self) == (GrenadeHelperTransferState::ExportSuccess::<T, P> { target_path }),
                Err(message) => *final(self) == (GrenadeHelperTransferState::Failed::<T, P> { direction, message }),
            },
    {
        *self = match result {
            Ok(TransferResult::Cancelled) => GrenadeHelperTransferState::Idle,
            Ok(TransferResult::Loaded { elements }) => GrenadeHelperTransferState::ImportPending { elements },
            Ok(TransferResult::Exported { target_path }) => GrenadeHelperTransferState::ExportSuccess { target_path },
            Err(message) => GrenadeHelperTransferState::Failed { direction, message },
        };
    }

    /// The user chose to replace the current spots with a pending import:
    /// hands out the imported spots and records how many they are.
    pub fn confirm_replace(&mut self) -> (r: Option<Vec<(String, Vec<T>)>>)
        requires
            pending_total_fits(*old(self)),
        ensures
            match *old(self) {
                GrenadeHelperTransferState::ImportPending { elements } => r == Some(elements)
                    && *final(self) == (GrenadeHelperTransferState::ImportSuccess::<T, P> {
                        count: total_spots(elements@) as usize,
                        replacing: true,
                    }),
                _ => r is None && *final(self) == *old(self),
            },
    {
        match self {
            GrenadeHelperTransferState::ImportPending { elements } => {
                // `requires` bounds the total, so the count is always there.
                let count = match spot_total(elements) {
                    Some(t) => t,
                    None => 0,
                };
                let mut taken = GrenadeHelperTransferState::ImportSuccess { count, replacing: true };
                std::mem::swap(self, &mut taken);
                match taken {
                    GrenadeHelperTransferState::ImportPending { elements } => Some(elements),
                    _ => None,
                }
            },
            _ => None,
        }
    }

    /// The user chose to add a pending import to the current spots: returns
    /// the current spots with the imported ones added (see
    /// `merge_spot_lists`) and records how many were imported. Without a
    /// pending import the current spots come back unchanged.
    pub fn confirm_add(&mut self, current: Vec<(String, Vec<T>)>) -> (r: Vec<(String, Vec<T>)>)
        requires
            pending_total_fits(*old(self)),
            keys_unique(current@),
        ensures
            match *old(self) {
                GrenadeHelperTransferState::ImportPending { elements } => {
                    &&& keys_unique(r@)
                    &&& forall|m: Seq<char>| #[trigger] spots_of(r@, m) == spots_of(current@, m) + spots_of(elements@, m)
                    &&& forall|m: Seq<char>| #[trigger] lists_map(r@, m) == (lists_map(current@, m) || lists_map(elements@, m))
                    &&& *final(self) == (GrenadeHelperTransferState::ImportSuccess::<T, P> {
                        count: total_spots(elements@) as usize,
                        replacing: false,
                    })
                },
                _ => r == current && *final(self) == *old(self),
            },
    {
        match self {
            GrenadeHelperTransferState::ImportPending { elements } => {
                // `requires` bounds the total, so the count is always there.
                let count = match spot_total(elements) {
                    Some(t) => t,
                    None => 0,
                };
                let mut taken = GrenadeHelperTransferState::ImportSuccess { count, replacing: false };
                std::mem::swap(self, &mut taken);
                match taken {
                    GrenadeHelperTransferState::ImportPending { elements } => merge_spot_lists(current, elements),
                    _ => current,
                }
            },
            _ => current,
        }
    }

    /// A dialog was closed: a pending import is dropped, a failure or success
    /// message is dismissed. Other states are kept.
    pub fn dismiss(&mut self)
        ensures
            match *old(self) {
                GrenadeHelperTransferState::ImportPending { .. } => (*final(self)) is Idle,
                GrenadeHelperTransferState::Failed { .. } => (*final(self)) is Idle,
                GrenadeHelperTransferState::ImportSuccess { .. } => (*final(self)) is Idle,
                GrenadeHelperTransferState::ExportSuccess { .. } => (*final(self)) is Idle,
                _ => *final(self) == *old(self),
            },
    {
        match self {
            GrenadeHelperTransferState::ImportPending { .. }
            | GrenadeHelperTransferState::Failed { .. }
            | GrenadeHelperTransferState::ImportSuccess { .. }
            | GrenadeHelperTransferState::ExportSuccess { .. } => {
                *self = GrenadeHelperTransferState::Idle;
            },
            _ => {},
        }
    }

    /// Whether the export and import buttons are enabled.
    pub fn buttons_enabled(&self) -> (r: bool)
        ensures
            r == (self is Idle),
    {
        match self {
            GrenadeHelperTransferState::Idle => true,
            _ => false,
        }
    }
}

} // verus!
