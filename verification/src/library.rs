//! The library of favorite stations: which stations it holds, its status,
//! and stepping to the next or previous favorite in display order.

use vstd::prelude::*;
use crate::text::{str_eq, views_of};

verus! {

/// Whether the library has stations.
#[derive(Debug, Clone, Copy, PartialEq, Eq, Structural, Default)]
pub enum SwLibraryStatus {
    #[default]
    Empty,
    Content,
}

/// A station as the library keeps it.
#[derive(Debug, Clone)]
pub struct LibraryStation {
    pub uuid: String,
    pub is_local: bool,
}

/// The uuids of a list of stations.
pub open spec fn uuids_of(v: Seq<LibraryStation>) -> Seq<Seq<char>> {
    v.map_values(|s: LibraryStation| s.uuid@)
}

/// The status that goes with a number of listed stations.
pub open spec fn spec_status_for(n: nat) -> SwLibraryStatus {
    if n == 0 {
        SwLibraryStatus::Empty
    } else {
        SwLibraryStatus::Content
    }
}

/// `uuid` is one of `uuids`.
pub open spec fn uuid_listed(uuids: Seq<Seq<char>>, uuid: Seq<char>) -> bool {
    exists|i: int| 0 <= i < uuids.len() && uuids[i] == uuid
}

/// The first index of `uuid` in `order`, at or after `i`.
pub open spec fn index_from(order: Seq<Seq<char>>, uuid: Seq<char>, i: int) -> Option<int>
    decreases order.len() - i,
{
    if i < 0 || i >= order.len() {
        None
    } else if order[i] == uuid {
        Some(i)
    } else {
        index_from(order, uuid, i + 1)
    }
}

/// The first index of `uuid` in `order`.
pub open spec fn first_index(order: Seq<Seq<char>>, uuid: Seq<char>) -> Option<int> {
    index_from(order, uuid, 0)
}

/// The favorite after the current station, in display order: the first one
/// when nothing or something unlisted plays, else the next, wrapping around.
pub open spec fn spec_next_favorite(order: Seq<Seq<char>>, current: Option<Seq<char>>) -> Option<int> {
    if order.len() == 0 {
        None
    } else {
        match current {
            None => Some(0),
            Some(c) => match first_index(order, c) {
                Some(i) => Some(if i + 1 < order.len() { i + 1 } else { 0 }),
                None => Some(0),
            },
        }
    }
}

/// The favorite before the current station, in display order: the last one
/// when nothing or something unlisted plays, else the previous, wrapping
/// around.
pub open spec fn spec_previous_favorite(order: Seq<Seq<char>>, current: Option<Seq<char>>) -> Option<int> {
    if order.len() == 0 {
        None
    } else {
        match current {
            None => Some(order.len() - 1),
            Some(c) => match first_index(order, c) {
                Some(i) => Some(if i > 0 { i - 1 } else { order.len() - 1 }),
                None => Some(order.len() - 1),
            },
        }
    }
}

/// No uuid occurs twice.
pub open spec fn distinct(order: Seq<Seq<char>>) -> bool {
    forall|i: int, j: int| 0 <= i < j < order.len() ==> order[i] != order[j]
}

/// What `index_from` returns is the first match.
pub proof fn lemma_index_from(order: Seq<Seq<char>>, uuid: Seq<char>, i: int)
    requires
        0 <= i,
    ensures
        match index_from(order, uuid, i) {
            Some(j) => i <= j < order.len() && order[j] == uuid && forall|k: int|
                i <= k < j ==> order[k] != uuid,
            None => forall|k: int| i <= k < order.len() ==> order[k] != uuid,
        },
    decreases order.len() - i,
{
    if i < order.len() && order[i] != uuid {
        lemma_index_from(order, uuid, i + 1);
    }
}

/// In a list without repeats, the first index of the uuid at `j` is `j`.
pub proof fn lemma_first_index_distinct(order: Seq<Seq<char>>, j: int)
    requires
        distinct(order),
        0 <= j < order.len(),
    ensures
        first_index(order, order[j]) == Some(j),
{
    lemma_index_from(order, order[j], 0);
    match first_index(order, order[j]) {
        Some(k) => {
            if k < j {
                assert(order[k] != order[j]);
            }
        },
        None => {},
    }
}

/// Stepping to the next favorite and then back to the previous one returns
/// to a listed station, when no station is listed twice.
pub proof fn law_next_then_previous(order: Seq<Seq<char>>, i: int)
    requires
        distinct(order),
        0 <= i < order.len(),
    ensures
        spec_next_favorite(order, Some(order[i])) matches Some(j) && spec_previous_favorite(
            order,
            Some(order[j]),
        ) == Some(i),
{
    lemma_first_index_distinct(order, i);
    let j = if i + 1 < order.len() { i + 1 } else { 0 };
    lemma_first_index_distinct(order, j);
}

/// The position reached from position `i` by stepping to the next favorite
/// `k` times.
pub open spec fn favorite_after(order: Seq<Seq<char>>, i: int, k: nat) -> int
    decreases k,
{
    if k == 0 {
        i
    } else {
        let p = favorite_after(order, i, (k - 1) as nat);
        match spec_next_favorite(order, Some(order[p])) {
            Some(j) => j,
            None => p,
        }
    }
}

/// Stepping to the next favorite goes round the favorites in display order:
/// `k` steps from position `i` reach position `(i + k) % n`, so every
/// favorite comes up within `n` steps, when no station is listed twice.
pub proof fn law_next_cycles_through_favorites(order: Seq<Seq<char>>, i: int, k: nat)
    requires
        distinct(order),
        0 <= i < order.len(),
    ensures
        favorite_after(order, i, k) == (i + k) % (order.len() as int),
    decreases k,
{
    let n = order.len() as int;
    if k == 0 {
        vstd::arithmetic::div_mod::lemma_small_mod(i as nat, n as nat);
    } else {
        law_next_cycles_through_favorites(order, i, (k - 1) as nat);
        let a = (i + k - 1) % n;
        vstd::arithmetic::div_mod::lemma_mod_bound(i + k - 1, n);
        lemma_first_index_distinct(order, a);
        vstd::arithmetic::div_mod::lemma_add_mod_noop_right(1, i + k - 1, n);
        if a + 1 < n {
            vstd::arithmetic::div_mod::lemma_small_mod((a + 1) as nat, n as nat);
        } else {
            vstd::arithmetic::div_mod::lemma_mod_self_0(n);
        }
    }
}

/// Stepping to the previous favorite and then to the next one returns to a
/// listed station, when no station is listed twice.
pub proof fn law_previous_then_next(order: Seq<Seq<char>>, i: int)
    requires
        distinct(order),
        0 <= i < order.len(),
    ensures
        spec_previous_favorite(order, Some(order[i])) matches Some(j) && spec_next_favorite(
            order,
            Some(order[j]),
        ) == Some(i),
{
    lemma_first_index_distinct(order, i);
    let j = if i > 0 { i - 1 } else { order.len() - 1 };
    lemma_first_index_distinct(order, j);
}

/// The index of `uuid` in `order`, if listed.
fn find_uuid(order: &Vec<String>, uuid: &str) -> (r: Option<usize>)
    ensures
        match r {
            Some(i) => first_index(views_of(order@), uuid@) == Some(i as int),
            None => first_index(views_of(order@), uuid@) is None,
        },
{
    let ghost o = views_of(order@);
    let mut i: usize = 0;
    while i < order.len()
        invariant
            0 <= i <= order.len(),
            o == views_of(order@),
            first_index(o, uuid@) == index_from(o, uuid@, i as int),
        decreases order.len() - i,
    {
        if str_eq(order[i].as_str(), uuid) {
            return Some(i);
        }
        i += 1;
    }
    None
}

/// The position, in display order, of the favorite after the current station.
pub fn next_favorite_index(order: &Vec<String>, current: Option<&str>) -> (r: Option<usize>)
    ensures
        crate::text::opt_int(r) == spec_next_favorite(views_of(order@), match current {
            Some(c) => Some(c@),
            None => None,
        }),
{
    let n = order.len();
    if n == 0 {
        return None;
    }
    match current {
        None => Some(0),
        Some(c) => match find_uuid(order, c) {
            Some(i) => {
                proof {
                    lemma_index_from(views_of(order@), c@, 0);
                }
                Some(if i + 1 < n { i + 1 } else { 0 })
            },
            None => Some(0),
        },
    }
}

/// The position, in display order, of the favorite before the current
/// station.
pub fn previous_favorite_index(order: &Vec<String>, current: Option<&str>) -> (r: Option<usize>)
    ensures
        crate::text::opt_int(r) == spec_previous_favorite(views_of(order@), match current {
            Some(c) => Some(c@),
            None => None,
        }),
{
    let n = order.len();
    if n == 0 {
        return None;
    }
    match current {
        None => Some(n - 1),
        Some(c) => match find_uuid(order, c) {
            Some(i) => Some(if i > 0 { i - 1 } else { n - 1 }),
            None => Some(n - 1),
        },
    }
}

/// `v` with every station whose uuid is in `removed` taken out, order kept.
pub open spec fn without_uuids(v: Seq<LibraryStation>, removed: Seq<Seq<char>>) -> Seq<LibraryStation> {
    v.filter(|s: LibraryStation| !uuid_listed(removed, s.uuid@))
}

/// The library: the stations its model lists, the stations added while it
/// runs, and its status.
pub struct SwLibrary {
    pub model: Vec<LibraryStation>,
    pub stations: Vec<LibraryStation>,
    pub status: SwLibraryStatus,
}

fn uuid_in(removed: &Vec<String>, uuid: &str) -> (r: bool)
    ensures
        r == uuid_listed(views_of(removed@), uuid@),
{
    let mut i: usize = 0;
    while i < removed.len()
        invariant
            0 <= i <= removed.len(),
            forall|j: int| 0 <= j < i ==> views_of(removed@)[j] != uuid@,
        decreases removed.len() - i,
    {
        if str_eq(removed[i].as_str(), uuid) {
            assert(views_of(removed@)[i as int] == uuid@);
            return true;
        }
        i += 1;
    }
    false
}

fn retain_not_in(v: &Vec<LibraryStation>, removed: &Vec<String>) -> (r: Vec<LibraryStation>)
    ensures
        r@ == without_uuids(v@, views_of(removed@)),
{
    let ghost f = |s: LibraryStation| !uuid_listed(views_of(removed@), s.uuid@);
    let mut r: Vec<LibraryStation> = Vec::new();
    let mut i: usize = 0;
    while i < v.len()
        invariant
            0 <= i <= v.len(),
            f == (|s: LibraryStation| !uuid_listed(views_of(removed@), s.uuid@)),
            r@ == v@.take(i as int).filter(f),
        decreases v.len() - i,
    {
        let keep = !uuid_in(removed, v[i].uuid.as_str());
        proof {
            reveal_with_fuel(Seq::<_>::filter, 1);
            assert(v@.take(i + 1).drop_last() =~= v@.take(i as int));
        }
        if keep {
            let s = LibraryStation { uuid: v[i].uuid.clone(), is_local: v[i].is_local };
            r.push(s);
            assert(s == v@[i as int]);
        }
        i += 1;
    }
    assert(v@.take(v@.len() as int) =~= v@);
    r
}

impl SwLibrary {
    /// The library as loaded: its model lists `stations`.
    pub fn load(stations: Vec<LibraryStation>) -> (l: SwLibrary)
        ensures
            l.model@ == stations@,
            l.stations@.len() == 0,
            l.status == SwLibraryStatus::Empty,
    {
        SwLibrary { model: stations, stations: Vec::new(), status: SwLibraryStatus::Empty }
    }

    /// Adds a station; the status then reflects the model.
    pub fn add_station(&mut self, station: LibraryStation)
        ensures
            final(self).stations@ == old(self).stations@.push(station),
            final(self).model@ == old(self).model@.push(station),
            final(self).status == spec_status_for(final(self).model@.len()),
    {
        let copy = LibraryStation { uuid: station.uuid.clone(), is_local: station.is_local };
        self.stations.push(copy);
        self.model.push(station);
        self.status = if self.model.len() == 0 {
            SwLibraryStatus::Empty
        } else {
            SwLibraryStatus::Content
        };
    }

    /// Removes the stations with the given uuids; the status then reflects
    /// the model.
    pub fn remove_stations(&mut self, uuids: &Vec<String>)
        ensures
            final(self).stations@ == without_uuids(old(self).stations@, views_of(uuids@)),
            final(self).model@ == without_uuids(old(self).model@, views_of(uuids@)),
            final(self).status == spec_status_for(final(self).model@.len()),
    {
        self.stations = retain_not_in(&self.stations, uuids);
        self.model = retain_not_in(&self.model, uuids);
        self.status = if self.model.len() == 0 {
            SwLibraryStatus::Empty
        } else {
            SwLibraryStatus::Content
        };
    }

    /// Whether a station with this uuid was added.
    pub fn contains_station(&self, uuid: &str) -> (r: bool)
        ensures
            r == uuid_listed(uuids_of(self.stations@), uuid@),
    {
        let mut i: usize = 0;
        while i < self.stations.len()
            invariant
                0 <= i <= self.stations.len(),
                forall|j: int| 0 <= j < i ==> uuids_of(self.stations@)[j] != uuid@,
            decreases self.stations.len() - i,
        {
            if str_eq(self.stations[i].uuid.as_str(), uuid) {
                assert(uuids_of(self.stations@)[i as int] == uuid@);
                return true;
            }
            i += 1;
        }
        false
    }

    /// The library's status.
    pub fn status(&self) -> (s: SwLibraryStatus)
        ensures
            s == self.status,
    {
        self.status
    }

    /// The uuids of the listed stations whose data is refreshed from the
    /// station database: those that are not local.
    pub fn stations_to_update(&self) -> (r: Vec<String>)
        ensures
            views_of(r@) == uuids_of(self.model@.filter(|s: LibraryStation| !s.is_local)),
    {
        let ghost f = |s: LibraryStation| !s.is_local;
        let mut r: Vec<String> = Vec::new();
        let mut i: usize = 0;
        while i < self.model.len()
            invariant
                0 <= i <= self.model.len(),
                f == (|s: LibraryStation| !s.is_local),
                views_of(r@) == uuids_of(self.model@.take(i as int).filter(f)),
            decreases self.model.len() - i,
        {
            proof {
                reveal_with_fuel(Seq::<_>::filter, 1);
                assert(self.model@.take(i + 1).drop_last() =~= self.model@.take(i as int));
            }
            let ghost prev_r = r@;
            let ghost prev = self.model@.take(i as int).filter(f);
            if !self.model[i].is_local {
                r.push(self.model[i].uuid.clone());
                proof {
                    assert(self.model@.take(i + 1).last() == self.model@[i as int]);
                    assert(self.model@.take(i + 1).filter(f) == prev.push(self.model@[i as int]));
                    assert(views_of(r@) =~= views_of(prev_r).push(self.model@[i as int].uuid@));
                    assert(uuids_of(prev.push(self.model@[i as int])) =~= uuids_of(prev).push(self.model@[i as int].uuid@));
                }
            }
            i += 1;
        }
        assert(self.model@.take(self.model@.len() as int) =~= self.model@);
        r
    }
}

/// Adding a station makes the library non-empty, and a station added is
/// contained until it is removed.
pub proof fn law_added_station_listed(stations: Seq<LibraryStation>, station: LibraryStation)
    ensures
        uuid_listed(uuids_of(stations.push(station)), station.uuid@),
        spec_status_for(stations.push(station).len()) == SwLibraryStatus::Content,
{
    assert(uuids_of(stations.push(station))[stations.len() as int] == station.uuid@);
}

/// After its uuid is removed, a station is no longer contained.
pub proof fn law_removed_station_gone(stations: Seq<LibraryStation>, uuids: Seq<Seq<char>>, uuid: Seq<char>)
    requires
        uuid_listed(uuids, uuid),
    ensures
        !uuid_listed(uuids_of(without_uuids(stations, uuids)), uuid),
{
    let f = |s: LibraryStation| !uuid_listed(uuids, s.uuid@);
    let rest = stations.filter(f);
    if uuid_listed(uuids_of(rest), uuid) {
        let i = choose|i: int| 0 <= i < uuids_of(rest).len() && uuids_of(rest)[i] == uuid;
        stations.lemma_filter_pred(f, i);
        assert(f(rest[i]));
        assert(false);
    }
}

} // verus!
